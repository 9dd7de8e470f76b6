//! Resources (`resource.resource`).

use vstd::prelude::*;

use crate::utils::text_is;

verus! {

/// The Odoo model of resources.
pub const RESOURCE_RESOURCE_MODEL_NAME: &'static str = "resource.resource";

/// The kind of a resource.
#[derive(Debug, Clone, Copy, PartialEq, Eq, Structural, PartialOrd, Ord, Hash)]
pub enum ResourceType {
    User,
    Material,
}

impl ResourceType {
    /// The position of the value in declaration order.
    pub open spec fn spec_position(self) -> int {
        match self {
            ResourceType::User => 0,
            ResourceType::Material => 1,
        }
    }

    /// The labels that Odoo shows, in declaration order.
    pub open spec fn spec_labels() -> Seq<Seq<char>> {
        seq!["Human"@, "Material"@]
    }

    /// The label that Odoo shows for the value.
    pub open spec fn spec_display(self) -> Seq<char> {
        ResourceType::spec_labels()[self.spec_position()]
    }

    /// The key under which Odoo stores the value.
    pub open spec fn spec_selection_key(self) -> Seq<char> {
        match self {
            ResourceType::User => "user"@,
            ResourceType::Material => "material"@,
        }
    }

    /// The value stored under `key`, if any.
    pub open spec fn spec_from_selection_key(key: Seq<char>) -> Option<ResourceType> {
        if key == "user"@ {
            Some(ResourceType::User)
        } else if key == "material"@ {
            Some(ResourceType::Material)
        } else {
            None
        }
    }

    /// The position of the value in declaration order.
    fn position(&self) -> (res: usize)
        ensures
            res == self.spec_position(),
            res < 2,
    {
        match self {
            ResourceType::User => 0,
            ResourceType::Material => 1,
        }
    }

    /// The label that Odoo shows for the value.
    pub fn to_display_string(&self) -> (res: String)
        ensures
            res@ == self.spec_display(),
    {
        let labels: [&str; 2] = ["Human", "Material"];
        assert(labels@.map_values(|s: &str| s@) =~= ResourceType::spec_labels());
        labels[self.position()].to_owned()
    }

    /// The key under which Odoo stores the value.
    pub fn selection_key(&self) -> (res: &'static str)
        ensures
            res@ == self.spec_selection_key(),
    {
        match self {
            ResourceType::User => "user",
            ResourceType::Material => "material",
        }
    }

    /// The value stored under `key`, if any.
    pub fn from_selection_key(key: &str) -> (res: Option<ResourceType>)
        ensures
            res == ResourceType::spec_from_selection_key(key@),
    {
        if text_is(key, "user") {
            Some(ResourceType::User)
        } else if text_is(key, "material") {
            Some(ResourceType::Material)
        } else {
            None
        }
    }

    /// Law: the value stored under a value's key is that value, so
    /// values are written and read back unchanged.
    pub proof fn lemma_selection_key_roundtrip(self)
        ensures
            ResourceType::spec_from_selection_key(self.spec_selection_key()) == Some(self),
    {
        reveal_strlit("user");
        reveal_strlit("material");
        assert("user"@.len() != "material"@.len());
    }

    /// Law: each value is shown under its Odoo label and stored under its
    /// Odoo key (User as "user", Material as "material"), and a key reads back as exactly the value
    /// stored under it.
    pub proof fn lemma_labels_and_keys()
        ensures
            ResourceType::User.spec_display() == "Human"@,
            ResourceType::User.spec_selection_key() == "user"@,
            ResourceType::Material.spec_display() == "Material"@,
            ResourceType::Material.spec_selection_key() == "material"@,
            forall|key: Seq<char>, v: ResourceType|
                ResourceType::spec_from_selection_key(key) == Some(v) <==> key == v.spec_selection_key(),
    {
        reveal_strlit("user");
        reveal_strlit("material");
        assert forall|key: Seq<char>, v: ResourceType|
            ResourceType::spec_from_selection_key(key) == Some(v) <==> key == v.spec_selection_key() by {
            v.lemma_selection_key_roundtrip();
        }
    }
}

impl Default for ResourceType {
    fn default() -> (res: ResourceType)
        ensures
            res == ResourceType::User,
    {
        ResourceType::User
    }
}
} // verus!
