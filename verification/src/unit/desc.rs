//! The description of a component of the host.

use vstd::prelude::*;
use vstd::string::StringExecFns;
use crate::error::CAError;

verus! {

/// The version of a component.
#[derive(Debug, Clone, Copy, PartialEq, Eq, Structural)]
pub struct Version {
    pub major: u8,
    pub minor: u8,
    pub bugfix: u8,
    pub stage: u8,
}

impl Version {
    /// The number in which the host packs this version: one byte for each
    /// part, the major part in the highest.
    pub open spec fn packed(self) -> int {
        self.major * 0x100_0000 + self.minor * 0x1_0000 + self.bugfix * 0x100 + self.stage
    }

    /// The version that the host has packed into `version`.
    pub fn from_u32(version: u32) -> (r: Self)
        ensures
            r.packed() == version,
    {
        let major = ((version >> 24) & 0xff) as u8;
        let minor = ((version >> 16) & 0xff) as u8;
        let bugfix = ((version >> 8) & 0xff) as u8;
        let stage = (version & 0xff) as u8;
        assert(((version >> 24) & 0xff) * 0x100_0000 + ((version >> 16) & 0xff) * 0x1_0000 + ((
        version >> 8) & 0xff) * 0x100 + (version & 0xff) == version) by (bit_vector);
        assert((version >> 24) & 0xff < 0x100 && (version >> 16) & 0xff < 0x100 && (version >> 8)
            & 0xff < 0x100 && version & 0xff < 0x100) by (bit_vector);
        Version { major, minor, bugfix, stage }
    }

    /// The number in which the host packs this version.
    pub fn to_u32(self) -> (r: u32)
        ensures
            r == self.packed(),
    {
        (self.major as u32) * 0x100_0000 + (self.minor as u32) * 0x1_0000 + (self.bugfix as u32)
            * 0x100 + (self.stage as u32)
    }
}

/// Two versions that pack to the same number are the same version, so that
/// unpacking a packed version gives it back.
pub proof fn lemma_version_is_its_packed_number(a: Version, b: Version)
    requires
        a.packed() == b.packed(),
    ensures
        a == b,
{
}

/// What identifies a component to the host: its type, its subtype, who made
/// it, and flags with their mask.
#[derive(Debug, Clone, Copy, PartialEq, Eq, Structural)]
pub struct ComponentDescription {
    pub component_type: u32,
    pub component_sub_type: u32,
    pub component_manufacturer: u32,
    pub component_flags: u32,
    pub component_flags_mask: u32,
}

impl ComponentDescription {
    /// What to search the host for: any component of `component_type`, of
    /// the subtype `sub_type` where one is given. A zero matches anything.
    pub fn search(component_type: u32, sub_type: Option<u32>) -> (r: Self)
        ensures
            r == (ComponentDescription {
                component_type,
                component_sub_type: match sub_type {
                    Some(sub_type) => sub_type,
                    None => 0,
                },
                component_manufacturer: 0,
                component_flags: 0,
                component_flags_mask: 0,
            }),
    {
        let component_sub_type = match sub_type {
            Some(sub_type) => sub_type,
            None => 0,
        };
        ComponentDescription {
            component_type,
            component_sub_type,
            component_manufacturer: 0,
            component_flags: 0,
            component_flags_mask: 0,
        }
    }
}

/// What the host says of a component that a search has found: its name, its
/// version packed into a number, and what identifies it.
#[derive(Debug, Clone)]
pub struct Found {
    pub name: String,
    pub version: u32,
    pub component: ComponentDescription,
}

/// A component of the host: its name, its version, and what identifies it.
#[derive(Debug, Clone)]
pub struct Description {
    name: String,
    version: Version,
    desc: ComponentDescription,
}

impl Description {
    /// The name of the component.
    pub closed spec fn spec_name(&self) -> Seq<char> {
        self.name@
    }

    /// The version of the component.
    pub closed spec fn spec_version(&self) -> Version {
        self.version
    }

    /// What identifies the component to the host.
    pub closed spec fn spec_component(&self) -> ComponentDescription {
        self.desc
    }

    /// The description of a component from what the host says of it: its
    /// name, its version packed into a number, and what identifies it.
    pub fn new(name: String, version: u32, desc: ComponentDescription) -> (r: Self)
        ensures
            r.spec_name() == name@,
            r.spec_version().packed() == version,
            r.spec_component() == desc,
    {
        Description { name, version: Version::from_u32(version), desc }
    }

    /// Whether this is the description of the component `found`.
    pub open spec fn describes(&self, found: Found) -> bool {
        &&& self.spec_name() == found.name@
        &&& self.spec_version().packed() == found.version
        &&& self.spec_component() == found.component
    }

    /// The description of the first component that a search of the host
    /// has found. A search that has found nothing is an error.
    pub fn first(found: Option<Found>) -> (r: Result<Description, CAError>)
        ensures
            match r {
                Ok(d) => found matches Some(f) && d.describes(f),
                Err(e) => found is None && is_nothing_found(e),
            },
    {
        match found {
            Some(f) => Ok(Description::new(f.name, f.version, f.component)),
            None => Err(CAError::Other(String::from_str("no description found"))),
        }
    }

    /// The descriptions of all the components that a search of the host has
    /// found, in the order in which it has found them.
    pub fn list(found: &Vec<Found>) -> (r: Vec<Description>)
        ensures
            r@.len() == found@.len(),
            forall|i: int| 0 <= i < found@.len() ==> (#[trigger] r@[i]).describes(found@[i]),
    {
        let mut descriptions: Vec<Description> = Vec::new();
        let mut i: usize = 0;
        while i < found.len()
            invariant
                i <= found@.len(),
                descriptions@.len() == i,
                forall|k: int| 0 <= k < i ==> (#[trigger] descriptions@[k]).describes(found@[k]),
            decreases found@.len() - i,
        {
            let f = &found[i];
            descriptions.push(Description::new(f.name.clone(), f.version, f.component));
            i += 1;
        }
        descriptions
    }

    /// The name of the component.
    pub fn name(&self) -> (r: &str)
        ensures
            r@ == self.spec_name(),
    {
        self.name.as_str()
    }

    /// The version of the component.
    pub fn version(&self) -> (r: Version)
        ensures
            r == self.spec_version(),
    {
        self.version
    }

    /// What identifies the component to the host.
    pub fn component(&self) -> (r: ComponentDescription)
        ensures
            r == self.spec_component(),
    {
        self.desc
    }
}

/// Whether `e` is the error of a search that has found nothing.
pub open spec fn is_nothing_found(e: CAError) -> bool {
    e matches CAError::Other(message) && message@ == "no description found"@
}

impl PartialEq for Description {
    /// Two descriptions are equal where name and version are.
    fn eq(&self, other: &Self) -> (r: bool) {
        self.name == other.name && self.version == other.version
    }
}

impl vstd::std_specs::cmp::PartialEqSpecImpl for Description {
    open spec fn obeys_eq_spec() -> bool {
        true
    }

    open spec fn eq_spec(&self, other: &Self) -> bool {
        self.spec_name() == other.spec_name() && self.spec_version() == other.spec_version()
    }
}

impl Eq for Description {

}

} // verus!
