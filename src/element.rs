//! UI elements as the accessibility tree describes them, and search criteria.
use vstd::prelude::*;

verus! {

/// The on-screen rectangle of an element.
#[derive(Debug, Clone, Copy, PartialEq, Eq, Structural)]
pub struct ElementBounds {
    pub x: i32,
    pub y: i32,
    pub width: i32,
    pub height: i32,
}

/// A UI element. `path` is its identity: two elements with the same path are
/// the same entity even when their other fields differ.
#[derive(Debug, Clone)]
pub struct Element {
    pub name: String,
    pub role: String,
    pub description: String,
    pub states: Vec<String>,
    pub bounds: Option<ElementBounds>,
    pub path: String,
}

/// Two elements hold the same field values.
pub open spec fn same_element(a: Element, b: Element) -> bool {
    &&& a.name == b.name
    &&& a.role == b.role
    &&& a.description == b.description
    &&& a.states@ == b.states@
    &&& a.bounds == b.bounds
    &&& a.path == b.path
}

/// A copy of a list of strings.
pub fn copy_strings(v: &Vec<String>) -> (r: Vec<String>)
    ensures
        r@ == v@,
{
    let mut r: Vec<String> = Vec::new();
    let mut i: usize = 0;
    while i < v.len()
        invariant
            i <= v@.len(),
            r@ == v@.subrange(0, i as int),
        decreases v@.len() - i,
    {
        r.push(v[i].clone());
        assert(r@ == v@.subrange(0, i + 1));
        i = i + 1;
    }
    assert(v@.subrange(0, v@.len() as int) == v@);
    r
}

impl Element {
    /// A copy of this element with the same field values.
    pub fn copy(&self) -> (r: Element)
        ensures
            same_element(r, *self),
    {
        Element {
            name: self.name.clone(),
            role: self.role.clone(),
            description: self.description.clone(),
            states: copy_strings(&self.states),
            bounds: self.bounds,
            path: self.path.clone(),
        }
    }
}

/// Criteria for finding elements: each criterion that is set must match.
#[derive(Debug, Clone)]
pub struct ElementSelector {
    pub name: Option<String>,
    pub role: Option<String>,
    pub states: Option<Vec<String>>,
}

impl ElementSelector {
    /// Elements with this name.
    pub fn by_name(name: &str) -> (r: Self)
        ensures
            r.name matches Some(n) && n@ == name@,
            r.role is None,
            r.states is None,
    {
        ElementSelector { name: Some(String::from_str(name)), role: None, states: None }
    }

    /// Elements with this role.
    pub fn by_role(role: &str) -> (r: Self)
        ensures
            r.name is None,
            r.role matches Some(n) && n@ == role@,
            r.states is None,
    {
        ElementSelector { name: None, role: Some(String::from_str(role)), states: None }
    }

    /// Elements with this name and this role.
    pub fn by_name_and_role(name: &str, role: &str) -> (r: Self)
        ensures
            r.name matches Some(n) && n@ == name@,
            r.role matches Some(n) && n@ == role@,
            r.states is None,
    {
        ElementSelector {
            name: Some(String::from_str(name)),
            role: Some(String::from_str(role)),
            states: None,
        }
    }
}

} // verus!
