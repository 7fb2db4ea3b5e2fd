//! The interning tables that map small integer keys to resolved styles and
//! conditional-format rules.
//!
//! Every key either interner returns stays valid for the life of the sheet;
//! resolution during emission fails only on a key that was never handed out.

use vstd::prelude::*;
use crate::style::Style;
use crate::cond_format::CfRule;

verus! {

/// A key previously returned by one of the interners.
pub type StyleRef = usize;

/// The style interning table: `StyleRef` keys to resolved [`Style`] values.
#[derive(Debug)]
pub struct StyleInterner {
    pub formats: Vec<Style>,
}

impl View for StyleInterner {
    type V = Seq<Style>;

    open spec fn view(&self) -> Seq<Style> {
        self.formats@
    }
}

impl StyleInterner {
    /// A fresh, empty table.
    pub fn new() -> (r: StyleInterner)
        ensures
            r@ == Seq::<Style>::empty(),
    {
        StyleInterner { formats: Vec::new() }
    }

    /// Stores a resolved format under a fresh key and returns the key.
    pub fn register(&mut self, f: Style) -> (k: StyleRef)
        ensures
            final(self)@ == old(self)@.push(f),
            k == old(self)@.len(),
    {
        let k = self.formats.len();
        self.formats.push(f);
        k
    }

    /// Looks a key up; `None` exactly when the key was never handed out.
    pub fn resolve(&self, k: StyleRef) -> (r: Option<&Style>)
        ensures
            match r {
                Some(f) => k < self@.len() && *f == self@[k as int],
                None => k >= self@.len(),
            },
    {
        if k < self.formats.len() {
            Some(&self.formats[k])
        } else {
            None
        }
    }

    /// How many keys have been handed out.
    pub fn len(&self) -> (n: usize)
        ensures
            n == self@.len(),
    {
        self.formats.len()
    }
}

/// The conditional-format rule interning table: keys to [`CfRule`] values.
#[derive(Debug)]
pub struct CfInterner {
    pub rules: Vec<CfRule>,
}

impl View for CfInterner {
    type V = Seq<CfRule>;

    open spec fn view(&self) -> Seq<CfRule> {
        self.rules@
    }
}

impl CfInterner {
    /// A fresh, empty table.
    pub fn new() -> (r: CfInterner)
        ensures
            r@ == Seq::<CfRule>::empty(),
    {
        CfInterner { rules: Vec::new() }
    }

    /// Stores a validated rule under a fresh key and returns the key.
    pub fn register(&mut self, rule: CfRule) -> (k: StyleRef)
        ensures
            final(self)@ == old(self)@.push(rule),
            k == old(self)@.len(),
    {
        let k = self.rules.len();
        self.rules.push(rule);
        k
    }

    /// Looks a key up; `None` exactly when the key was never handed out.
    pub fn resolve(&self, k: StyleRef) -> (r: Option<&CfRule>)
        ensures
            match r {
                Some(rule) => k < self@.len() && *rule == self@[k as int],
                None => k >= self@.len(),
            },
    {
        if k < self.rules.len() {
            Some(&self.rules[k])
        } else {
            None
        }
    }

    /// How many keys have been handed out.
    pub fn len(&self) -> (n: usize)
        ensures
            n == self@.len(),
    {
        self.rules.len()
    }
}

} // verus!
