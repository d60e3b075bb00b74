//! Top-level shapes of `rules.json` and `contacts.json`: each wraps its list
//! in an object, leaving room for later fields.

use vstd::prelude::*;

use super::contacts::ContactDef;
use super::rules::RuleDef;

verus! {

/// `rules.json` top level.
#[derive(Debug, Clone)]
pub struct RuleDoc {
    pub rule: Vec<RuleDef>,
}

impl Default for RuleDoc {
    fn default() -> (d: RuleDoc)
        ensures
            d.rule@.len() == 0,
    {
        RuleDoc { rule: Vec::new() }
    }
}

/// `contacts.json` top level.
#[derive(Debug, Clone)]
pub struct ContactDoc {
    pub contact: Vec<ContactDef>,
}

impl Default for ContactDoc {
    fn default() -> (d: ContactDoc)
        ensures
            d.contact@.len() == 0,
    {
        ContactDoc { contact: Vec::new() }
    }
}

} // verus!
