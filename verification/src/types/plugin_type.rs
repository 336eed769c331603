//! The optional service plugins a conversation can enable, addressed by
//! their fixed identifiers.

use vstd::prelude::*;
use crate::strings::str_eq;

verus! {

#[derive(Debug, Clone)]
pub struct Plugin {
    pub id: String,
    pub category: u32,
}

/// The category every known plugin carries.
pub fn defalut_category() -> (r: u32)
    ensures
        r == 1,
{
    1
}

/// The display name for a plugin identifier.
pub open spec fn spec_plugin_name(id: Seq<char>) -> Seq<char> {
    if id == "c310c353-b9f0-4d76-ab0d-1dd5e979cf68"@ { "Search"@ }
    else if id == "46664d33-1591-4ce8-b3fb-ba1022b66c11"@ { "Instacart"@ }
    else if id == "d6be744c-2bd9-432f-95b7-76e103946e34"@ { "Kayak"@ }
    else if id == "543a7b1b-ebc6-46f4-be76-00c202990a1b"@ { "OpenTable"@ }
    else if id == "39e3566a-d481-4d99-82b2-6d739b1e716e"@ { "Shop"@ }
    else if id == "22b7f79d-8ea4-437e-b5fd-3e21f09f7bc1"@ { "Suno"@ }
    else { "Unknown Plugin"@ }
}

/// The identifier for a plugin name, if the name is known.
pub open spec fn spec_plugin_id(name: Seq<char>) -> Option<Seq<char>> {
    if name == "Search"@ { Some("c310c353-b9f0-4d76-ab0d-1dd5e979cf68"@) }
    else if name == "Instacart"@ { Some("46664d33-1591-4ce8-b3fb-ba1022b66c11"@) }
    else if name == "Kayak"@ { Some("d6be744c-2bd9-432f-95b7-76e103946e34"@) }
    else if name == "OpenTable"@ { Some("543a7b1b-ebc6-46f4-be76-00c202990a1b"@) }
    else if name == "Shop"@ { Some("39e3566a-d481-4d99-82b2-6d739b1e716e"@) }
    else if name == "Suno"@ { Some("22b7f79d-8ea4-437e-b5fd-3e21f09f7bc1"@) }
    else { None }
}

impl Plugin {
    pub fn get_name(&self) -> (r: String)
        ensures
            r@ == spec_plugin_name(self.id@),
    {
        let id = self.id.as_str();
        if str_eq(id, "c310c353-b9f0-4d76-ab0d-1dd5e979cf68") {
            String::from_str("Search")
        } else if str_eq(id, "46664d33-1591-4ce8-b3fb-ba1022b66c11") {
            String::from_str("Instacart")
        } else if str_eq(id, "d6be744c-2bd9-432f-95b7-76e103946e34") {
            String::from_str("Kayak")
        } else if str_eq(id, "543a7b1b-ebc6-46f4-be76-00c202990a1b") {
            String::from_str("OpenTable")
        } else if str_eq(id, "39e3566a-d481-4d99-82b2-6d739b1e716e") {
            String::from_str("Shop")
        } else if str_eq(id, "22b7f79d-8ea4-437e-b5fd-3e21f09f7bc1") {
            String::from_str("Suno")
        } else {
            String::from_str("Unknown Plugin")
        }
    }

    pub fn build_by_name(name: &str) -> (r: Option<Plugin>)
        ensures
            match (r, spec_plugin_id(name@)) {
                (Some(p), Some(id)) => p.id@ == id && p.category == 1,
                (None, None) => true,
                _ => false,
            },
    {
        if str_eq(name, "Search") { Some(Plugin::search()) }
        else if str_eq(name, "Instacart") { Some(Plugin::instacart()) }
        else if str_eq(name, "Kayak") { Some(Plugin::kayak()) }
        else if str_eq(name, "OpenTable") { Some(Plugin::open_table()) }
        else if str_eq(name, "Shop") { Some(Plugin::shop()) }
        else if str_eq(name, "Suno") { Some(Plugin::suno()) }
        else { None }
    }

    pub fn search() -> (r: Plugin)
        ensures
            r.id@ == "c310c353-b9f0-4d76-ab0d-1dd5e979cf68"@,
            r.category == 1,
    {
        Plugin { id: String::from_str("c310c353-b9f0-4d76-ab0d-1dd5e979cf68"), category: 1 }
    }

    pub fn instacart() -> (r: Plugin)
        ensures
            r.id@ == "46664d33-1591-4ce8-b3fb-ba1022b66c11"@,
            r.category == 1,
    {
        Plugin { id: String::from_str("46664d33-1591-4ce8-b3fb-ba1022b66c11"), category: 1 }
    }

    pub fn kayak() -> (r: Plugin)
        ensures
            r.id@ == "d6be744c-2bd9-432f-95b7-76e103946e34"@,
            r.category == 1,
    {
        Plugin { id: String::from_str("d6be744c-2bd9-432f-95b7-76e103946e34"), category: 1 }
    }

    pub fn klarna() -> (r: Plugin)
        ensures
            r.id@ == "5f143ea3-8c80-4efd-9515-185e83b7cf8a"@,
            r.category == 1,
    {
        Plugin { id: String::from_str("5f143ea3-8c80-4efd-9515-185e83b7cf8a"), category: 1 }
    }

    pub fn open_table() -> (r: Plugin)
        ensures
            r.id@ == "543a7b1b-ebc6-46f4-be76-00c202990a1b"@,
            r.category == 1,
    {
        Plugin { id: String::from_str("543a7b1b-ebc6-46f4-be76-00c202990a1b"), category: 1 }
    }

    pub fn shop() -> (r: Plugin)
        ensures
            r.id@ == "39e3566a-d481-4d99-82b2-6d739b1e716e"@,
            r.category == 1,
    {
        Plugin { id: String::from_str("39e3566a-d481-4d99-82b2-6d739b1e716e"), category: 1 }
    }

    pub fn suno() -> (r: Plugin)
        ensures
            r.id@ == "22b7f79d-8ea4-437e-b5fd-3e21f09f7bc1"@,
            r.category == 1,
    {
        Plugin { id: String::from_str("22b7f79d-8ea4-437e-b5fd-3e21f09f7bc1"), category: 1 }
    }
}

/// Rebuilds a plugin list element by element, so each copy is known to
/// equal its original.
pub fn clone_plugins(v: &Vec<Plugin>) -> (r: Vec<Plugin>)
    ensures
        r@ == v@,
{
    let mut out: Vec<Plugin> = Vec::new();
    let mut i: usize = 0;
    while i < v.len()
        invariant
            0 <= i <= v@.len(),
            out@ == v@.take(i as int),
        decreases v@.len() - i,
    {
        out.push(Plugin { id: v[i].id.clone(), category: v[i].category });
        proof {
            assert(out@ =~= v@.take(i + 1));
        }
        i = i + 1;
    }
    proof {
        assert(v@.take(v@.len() as int) =~= v@);
    }
    out
}

} // verus!
