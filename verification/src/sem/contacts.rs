//! Contact profiles: which scenario id each chat partner belongs to.
//!
//! Unmarked partners fall back to `formal` (conservative). Parsing does not
//! check that a scenario id exists: a reference to a deleted scenario is
//! tolerated here and resolved conservatively by the scenario table.

use vstd::prelude::*;
use vstd::string::*;

use crate::text::{str_eq, trim, trim_spec};

verus! {

/// One `[[contact]]` entry.
#[derive(Debug, Clone)]
pub struct ContactDef {
    pub name: String,
    pub profile: String,
}

/// Later entries override earlier ones with the same name (map insertion).
pub open spec fn profile_map(entries: Seq<(Seq<char>, Seq<char>)>) -> Map<Seq<char>, Seq<char>>
    decreases entries.len(),
{
    if entries.len() == 0 {
        Map::empty()
    } else {
        profile_map(entries.drop_last()).insert(entries.last().0, entries.last().1)
    }
}

pub open spec fn def_pairs(defs: Seq<ContactDef>) -> Seq<(Seq<char>, Seq<char>)> {
    defs.map_values(|d: ContactDef| (d.name@, d.profile@))
}

/// A contact entry is accepted when neither its name nor its profile is blank.
pub open spec fn contact_ok(d: ContactDef) -> bool {
    trim_spec(d.name@).len() > 0 && trim_spec(d.profile@).len() > 0
}

/// The message for a refused entry.
pub open spec fn contact_error(d: ContactDef) -> Seq<char> {
    if trim_spec(d.name@).len() == 0 {
        "联系人 name 不能为空"@
    } else {
        "联系人「"@ + d.name@ + "」profile 不能为空"@
    }
}

/// Profile table (immutable snapshot; hot reload replaces it whole).
///
/// Entries are kept in insertion order and looked up from the back, so a
/// later entry overrides an earlier one exactly as map insertion does. A
/// `HashMap` keyed by `String` has no usable specification in vstd (string
/// keys do not meet its key model), so the table is a `Vec` whose view is
/// the map.
#[derive(Debug, Clone)]
pub struct ContactBook {
    entries: Vec<(String, String)>,
}

impl ContactBook {
    pub closed spec fn pairs(self) -> Seq<(Seq<char>, Seq<char>)> {
        self.entries@.map_values(|e: (String, String)| (e.0@, e.1@))
    }
}

impl View for ContactBook {
    type V = Map<Seq<char>, Seq<char>>;

    closed spec fn view(&self) -> Map<Seq<char>, Seq<char>> {
        profile_map(self.pairs())
    }
}

/// The value a map holds for the last entry with the key, when no later entry has it.
proof fn lemma_profile_map_last(s: Seq<(Seq<char>, Seq<char>)>, k: Seq<char>, i: int)
    requires
        0 <= i < s.len(),
        s[i].0 == k,
        forall|j: int| i < j < s.len() ==> (#[trigger] s[j]).0 != k,
    ensures
        profile_map(s).contains_key(k),
        profile_map(s)[k] == s[i].1,
    decreases s.len(),
{
    if i < s.len() - 1 {
        assert(s.drop_last()[i] == s[i]);
        assert forall|j: int| i < j < s.drop_last().len() implies (#[trigger] s.drop_last()[j]).0
            != k by {
            assert(s.drop_last()[j] == s[j]);
        }
        lemma_profile_map_last(s.drop_last(), k, i);
    }
}

/// A key that no entry has is absent from the map.
proof fn lemma_profile_map_absent(s: Seq<(Seq<char>, Seq<char>)>, k: Seq<char>)
    requires
        forall|j: int| 0 <= j < s.len() ==> (#[trigger] s[j]).0 != k,
    ensures
        !profile_map(s).contains_key(k),
    decreases s.len(),
{
    if s.len() > 0 {
        assert forall|j: int| 0 <= j < s.drop_last().len() implies (#[trigger] s.drop_last()[j]).0
            != k by {
            assert(s.drop_last()[j] == s[j]);
        }
        lemma_profile_map_absent(s.drop_last(), k);
    }
}

impl Default for ContactBook {
    /// No entry: everyone is `formal`.
    fn default() -> (b: ContactBook)
        ensures
            b@ == Map::<Seq<char>, Seq<char>>::empty(),
    {
        let b = ContactBook { entries: Vec::new() };
        assert(b.pairs() =~= Seq::<(Seq<char>, Seq<char>)>::empty());
        b
    }
}

impl ContactBook {
    /// Build the table from parsed entries, in order. The first entry with a
    /// blank name or a blank profile refuses the whole table.
    pub fn from_defs(defs: Vec<ContactDef>) -> (r: Result<ContactBook, String>)
        ensures
            r is Ok <==> forall|k: int| 0 <= k < defs@.len() ==> contact_ok(#[trigger] defs@[k]),
            r matches Ok(b) ==> b@ == profile_map(def_pairs(defs@)),
            r matches Err(m) ==> exists|k: int|
                0 <= k < defs@.len() && !contact_ok(#[trigger] defs@[k]) && (forall|j: int|
                    0 <= j < k ==> contact_ok(#[trigger] defs@[j])) && m@ == contact_error(
                    defs@[k],
                ),
    {
        let ghost all = defs@;
        let mut entries: Vec<(String, String)> = Vec::new();
        assert(entries@.map_values(|e: (String, String)| (e.0@, e.1@)) =~= def_pairs(
            all.subrange(0, 0),
        ));
        for d in it: defs.into_iter()
            invariant
                it.seq() == all,
                entries@.map_values(|e: (String, String)| (e.0@, e.1@)) == def_pairs(
                    all.subrange(0, it.index() as int),
                ),
                forall|j: int| 0 <= j < it.index() ==> contact_ok(#[trigger] all[j]),
        {
            let ghost i = it.index();
            assert(d == all[i as int]);
            proof {
                crate::text::lemma_trim_empty_iff_blank(d.name@);
            }
            if trim(d.name.as_str()).is_empty() {
                return Err(String::from_str("联系人 name 不能为空"));
            }
            if trim(d.profile.as_str()).is_empty() {
                let mut m = String::from_str("联系人「");
                m.append(d.name.as_str());
                m.append("」profile 不能为空");
                return Err(m);
            }
            let ghost pair = (d.name@, d.profile@);
            let ghost before = entries@.map_values(|e: (String, String)| (e.0@, e.1@));
            entries.push((d.name, d.profile));
            assert(entries@.map_values(|e: (String, String)| (e.0@, e.1@)) =~= before.push(pair));
            assert(def_pairs(all.subrange(0, i + 1)) =~= def_pairs(all.subrange(0, i as int)).push(
                pair,
            ));
            assert(entries@.map_values(|e: (String, String)| (e.0@, e.1@)) =~= def_pairs(
                all.subrange(0, i + 1),
            ));
        }
        assert(all.subrange(0, all.len() as int) =~= all);
        Ok(ContactBook { entries })
    }

    /// Scenario id of a chat partner; unmarked partners are `formal`.
    pub fn profile_of(&self, name: &str) -> (p: &str)
        ensures
            p@ == (if self@.contains_key(name@) {
                self@[name@]
            } else {
                "formal"@
            }),
    {
        let ghost s = self.pairs();
        let mut i: usize = self.entries.len();
        while i > 0
            invariant
                i <= self.entries@.len(),
                s == self.pairs(),
                s.len() == self.entries@.len(),
                forall|j: int| i <= j < s.len() ==> (#[trigger] s[j]).0 != name@,
            decreases i,
        {
            let e = &self.entries[i - 1];
            if str_eq(e.0.as_str(), name) {
                proof {
                    lemma_profile_map_last(s, name@, i - 1);
                }
                return e.1.as_str();
            }
            i = i - 1;
        }
        proof {
            lemma_profile_map_absent(s, name@);
        }
        "formal"
    }
}

} // verus!
