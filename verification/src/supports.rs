//! Parsed `@supports` conditions.
use vstd::prelude::*;

verus! {

/// A parsed `@supports` condition.
#[derive(Debug, PartialEq)]
pub enum SupportsCondition {
    Feature(SupportsFeature),
    Not(Box<SupportsCondition>),
    And(Vec<SupportsCondition>),
    Or(Vec<SupportsCondition>),
}

impl SupportsCondition {
    /// A copy of the condition, built node by node.
    fn copy_condition(&self) -> (r: Self)
        decreases self,
    {
        match self {
            SupportsCondition::Feature(f) => SupportsCondition::Feature(f.clone()),
            SupportsCondition::Not(inner) => SupportsCondition::Not(Box::new((&**inner).copy_condition())),
            SupportsCondition::And(parts) => SupportsCondition::And(Self::copy_all(parts)),
            SupportsCondition::Or(parts) => SupportsCondition::Or(Self::copy_all(parts)),
        }
    }

    /// Copies of the conditions of `parts`, in order.
    fn copy_all(parts: &Vec<SupportsCondition>) -> (r: Vec<SupportsCondition>)
        decreases parts,
    {
        let mut out: Vec<SupportsCondition> = Vec::new();
        let mut i: usize = 0;
        while i < parts.len()
            invariant
                i <= parts@.len(),
            decreases parts@.len() - i,
        {
            proof {
                assert(decreases_to!(parts => parts@[i as int]));
            }
            out.push(parts[i].copy_condition());
            i = i + 1;
        }
        out
    }
}

impl Clone for SupportsCondition {
    fn clone(&self) -> (r: Self) {
        self.copy_condition()
    }
}

/// A single feature test like `(display: grid)` or `selector(.foo)`.
#[derive(Debug, Clone, PartialEq)]
pub struct SupportsFeature {
    pub name: String,
    pub value: Option<String>,
    pub is_selector: bool,
}

} // verus!
