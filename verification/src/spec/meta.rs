//! Object metadata of a custom resource, as far as the operator reads it.
use vstd::prelude::*;

verus! {

#[derive(Debug, Clone)]
pub struct ObjectMeta {
    pub name: Option<String>,
    pub generate_name: Option<String>,
    pub namespace: Option<String>,
    pub uid: Option<String>,
}

/// The object's name, else its generate-name prefix, else empty.
pub open spec fn name_any_of(m: ObjectMeta) -> Seq<char> {
    match m.name {
        Some(n) => n@,
        None => match m.generate_name {
            Some(g) => g@,
            None => Seq::empty(),
        },
    }
}

impl ObjectMeta {
    /// The name the object is known by (`ResourceExt::name_any`).
    pub fn name_any(&self) -> (r: String)
        ensures
            r@ == name_any_of(*self),
    {
        match &self.name {
            Some(n) => n.clone(),
            None => match &self.generate_name {
                Some(g) => g.clone(),
                None => String::new(),
            },
        }
    }
}

} // verus!
