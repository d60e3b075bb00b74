//! Scenario table: the built-in scenarios plus user-defined ones.
//!
//! A scenario is an L1 filter key (rules' `applies_to` and contacts'
//! `profile` refer to it by id), a display name, a base profile (which L2
//! head it reuses) and an L2 threshold. Built-in scenarios (`正式`, `个人`)
//! cannot be changed or removed; custom scenarios are unlimited. Ids are
//! stable (`s1`, `s2`, ...; the smallest free one is reused), so renaming does
//! not break references; a dangling reference to a removed scenario falls
//! back to the formal defaults.
//!
//! The table carries each threshold as its IEEE-754 single-precision bit
//! pattern: nothing in the table's logic reads the number, it only stores
//! and returns it.

use vstd::prelude::*;
use vstd::string::*;

use super::rules::Profile;
use crate::text::{str_eq, trim, trim_spec};

verus! {

pub const FORMAL_ID: &'static str = "formal";

pub const CASUAL_ID: &'static str = "casual";

/// Bit pattern of the formal default threshold, 0.55.
pub const THRESHOLD_FORMAL_BITS: u32 = 0x3F0C_CCCD;

/// Bit pattern of the casual default threshold, 0.45.
pub const THRESHOLD_CASUAL_BITS: u32 = 0x3EE6_6666;

/// Abstract value of a scenario.
pub struct ScenarioView {
    pub id: Seq<char>,
    pub name: Seq<char>,
    pub base: Profile,
    pub threshold_bits: u32,
    pub fixed: bool,
}

/// One scenario.
#[derive(Debug, PartialEq)]
pub struct Scenario {
    /// Stable identifier referenced by rules and contacts.
    pub id: String,
    /// Display name.
    pub name: String,
    /// Base profile: which linear head is used.
    pub base: Profile,
    /// L2 threshold (f32 bit pattern): score above it blocks.
    pub threshold_bits: u32,
    /// Built-in (cannot be changed or removed).
    pub fixed: bool,
}

impl View for Scenario {
    type V = ScenarioView;

    open spec fn view(&self) -> ScenarioView {
        ScenarioView {
            id: self.id@,
            name: self.name@,
            base: self.base,
            threshold_bits: self.threshold_bits,
            fixed: self.fixed,
        }
    }
}

impl Clone for Scenario {
    fn clone(&self) -> (r: Scenario)
        ensures
            r@ == self@,
    {
        Scenario {
            id: self.id.clone(),
            name: self.name.clone(),
            base: self.base,
            threshold_bits: self.threshold_bits,
            fixed: self.fixed,
        }
    }
}

/// One entry of `scenes.json`; a missing threshold takes the base's default.
#[derive(Debug)]
pub struct SceneDef {
    pub id: String,
    pub name: String,
    pub base: Profile,
    pub threshold_bits: Option<u32>,
}

/// `scenes.json` top level.
#[derive(Debug)]
pub struct SceneDoc {
    pub scene: Vec<SceneDef>,
}

impl Default for SceneDoc {
    fn default() -> (d: SceneDoc)
        ensures
            d.scene@.len() == 0,
    {
        SceneDoc { scene: Vec::new() }
    }
}

pub open spec fn default_threshold_bits(base: Profile) -> u32 {
    match base {
        Profile::Formal => THRESHOLD_FORMAL_BITS,
        Profile::Casual => THRESHOLD_CASUAL_BITS,
    }
}

fn default_threshold_for_base(base: Profile) -> (b: u32)
    ensures
        b == default_threshold_bits(base),
{
    match base {
        Profile::Formal => THRESHOLD_FORMAL_BITS,
        Profile::Casual => THRESHOLD_CASUAL_BITS,
    }
}

pub open spec fn formal_view() -> ScenarioView {
    ScenarioView {
        id: "formal"@,
        name: "正式"@,
        base: Profile::Formal,
        threshold_bits: THRESHOLD_FORMAL_BITS,
        fixed: true,
    }
}

pub open spec fn casual_view() -> ScenarioView {
    ScenarioView {
        id: "casual"@,
        name: "个人"@,
        base: Profile::Casual,
        threshold_bits: THRESHOLD_CASUAL_BITS,
        fixed: true,
    }
}

pub open spec fn builtin_views() -> Seq<ScenarioView> {
    seq![formal_view(), casual_view()]
}

pub open spec fn is_builtin_id(id: Seq<char>) -> bool {
    id == "formal"@ || id == "casual"@
}

/// First scenario with the id, front to back.
pub open spec fn find_view(s: Seq<ScenarioView>, id: Seq<char>) -> Option<ScenarioView>
    decreases s.len(),
{
    if s.len() == 0 {
        None
    } else if s[0].id == id {
        Some(s[0])
    } else {
        find_view(s.drop_first(), id)
    }
}

pub open spec fn id_used(s: Seq<ScenarioView>, id: Seq<char>) -> bool {
    exists|i: int| 0 <= i < s.len() && (#[trigger] s[i]).id == id
}

pub open spec fn name_taken(s: Seq<ScenarioView>, name: Seq<char>) -> bool {
    exists|i: int| 0 <= i < s.len() && (#[trigger] s[i]).name == name
}

pub open spec fn name_taken_by_other(s: Seq<ScenarioView>, name: Seq<char>, id: Seq<char>) -> bool {
    exists|i: int| 0 <= i < s.len() && (#[trigger] s[i]).name == name && s[i].id != id
}

/// Custom scenarios have distinct ids, none of them a built-in id.
pub open spec fn custom_wf(s: Seq<ScenarioView>) -> bool {
    &&& forall|i: int| 0 <= i < s.len() ==> !is_builtin_id(#[trigger] s[i].id)
    &&& forall|i: int, j: int|
        0 <= i < j < s.len() ==> (#[trigger] s[i]).id != (#[trigger] s[j]).id
}

/// Decimal digit character.
pub open spec fn digit_char(d: nat) -> char {
    ((('0' as u32) + d) as u32) as char
}

/// Decimal representation without leading zeros.
pub open spec fn decimal(n: nat) -> Seq<char>
    decreases n,
{
    if n < 10 {
        seq![digit_char(n)]
    } else {
        decimal(n / 10).push(digit_char(n % 10))
    }
}

/// The id given to the n-th custom slot: `s` followed by `n` in decimal.
pub open spec fn scenario_id(n: nat) -> Seq<char> {
    seq!['s'] + decimal(n)
}

/// `n` is the smallest positive number whose id is free.
pub open spec fn smallest_free(s: Seq<ScenarioView>, n: nat) -> bool {
    &&& n >= 1
    &&& !id_used(s, scenario_id(n))
    &&& forall|m: nat| 1 <= m < n ==> id_used(s, #[trigger] scenario_id(m))
}

pub open spec fn empty_name_message() -> Seq<char> {
    "场景名不能为空"@
}

pub open spec fn name_exists_message(name: Seq<char>) -> Seq<char> {
    "场景名「"@ + name + "」已存在"@
}

pub open spec fn missing_custom_message(id: Seq<char>) -> Seq<char> {
    "场景不存在或为内置场景："@ + id
}

pub open spec fn builtin_remove_message() -> Seq<char> {
    "内置场景不可删除"@
}

pub open spec fn missing_message(id: Seq<char>) -> Seq<char> {
    "场景不存在："@ + id
}

fn name_exists(name: &str) -> (e: String)
    ensures
        e@ == name_exists_message(name@),
{
    let mut e = String::from_str("场景名「");
    e.append(name);
    e.append("」已存在");
    e
}

/// The one-character text of a decimal digit.
fn digit_text(d: usize) -> (s: &'static str)
    requires
        d < 10,
    ensures
        s@ == seq![digit_char(d as nat)],
{
    let all: &'static str = "0123456789";
    proof {
        reveal_strlit("0123456789");
        assert(all@[d as int] == digit_char(d as nat));
    }
    all.substring_char(d, d + 1)
}

/// `n` in decimal, no leading zeros (as `to_string` prints it).
fn decimal_text(n: usize) -> (s: String)
    ensures
        s@ == decimal(n as nat),
    decreases n,
{
    if n < 10 {
        String::from_str(digit_text(n))
    } else {
        let mut s = decimal_text(n / 10);
        s.append(digit_text(n % 10));
        s
    }
}

proof fn lemma_decimal_nonempty(n: nat)
    ensures
        decimal(n).len() >= 1,
        n >= 10 ==> decimal(n).len() >= 2,
    decreases n,
{
    if n >= 10 {
        lemma_decimal_nonempty(n / 10);
    }
}

/// Different numbers print differently.
proof fn lemma_decimal_injective(a: nat, b: nat)
    requires
        decimal(a) == decimal(b),
    ensures
        a == b,
    decreases a + b,
{
    lemma_decimal_nonempty(a);
    lemma_decimal_nonempty(b);
    if a < 10 && b < 10 {
        assert(decimal(a)[0] == digit_char(a));
        assert(decimal(b)[0] == digit_char(b));
    } else if a >= 10 && b >= 10 {
        assert(decimal(a).last() == digit_char(a % 10));
        assert(decimal(b).last() == digit_char(b % 10));
        assert(decimal(a).drop_last() =~= decimal(a / 10));
        assert(decimal(b).drop_last() =~= decimal(b / 10));
        lemma_decimal_injective(a / 10, b / 10);
    }
}

proof fn lemma_scenario_id_injective(a: nat, b: nat)
    requires
        scenario_id(a) == scenario_id(b),
    ensures
        a == b,
{
    assert(scenario_id(a).drop_first() =~= decimal(a));
    assert(scenario_id(b).drop_first() =~= decimal(b));
    lemma_decimal_injective(a, b);
}

/// A generated id is never a built-in id.
proof fn lemma_scenario_id_not_builtin(n: nat)
    ensures
        !is_builtin_id(scenario_id(n)),
{
    reveal_strlit("formal");
    reveal_strlit("casual");
    assert(scenario_id(n)[0] == 's');
}

/// Among the ids of `len + 1` consecutive slots, one is free: the table has only `len` ids.
proof fn lemma_some_slot_free(s: Seq<ScenarioView>)
    ensures
        exists|m: nat| 1 <= m <= s.len() + 1 && !id_used(s, #[trigger] scenario_id(m)),
{
    if forall|m: nat| 1 <= m <= s.len() + 1 ==> id_used(s, #[trigger] scenario_id(m)) {
        let ids = s.map_values(|v: ScenarioView| v.id);
        let cands = Seq::new((s.len() + 1) as nat, |i: int| scenario_id((i + 1) as nat));
        assert(cands.no_duplicates()) by {
            assert forall|i: int, j: int|
                0 <= i < cands.len() && 0 <= j < cands.len() && i != j implies cands[i]
                != cands[j] by {
                if cands[i] == cands[j] {
                    lemma_scenario_id_injective((i + 1) as nat, (j + 1) as nat);
                }
            }
        }
        cands.unique_seq_to_set();
        ids.lemma_cardinality_of_set();
        assert(cands.to_set().subset_of(ids.to_set())) by {
            assert forall|x: Seq<char>| cands.to_set().contains(x) implies ids.to_set().contains(
                x,
            ) by {
                let i = choose|i: int| 0 <= i < cands.len() && cands[i] == x;
                let m = (i + 1) as nat;
                assert(id_used(s, scenario_id(m)));
                let k = choose|k: int| 0 <= k < s.len() && (#[trigger] s[k]).id == scenario_id(m);
                assert(ids[k] == x);
            }
        }
        vstd::set_lib::lemma_len_subset(cands.to_set(), ids.to_set());
        assert(false);
    }
}

/// Position of the first custom scenario with the id.
pub open spec fn find_index(s: Seq<ScenarioView>, id: Seq<char>) -> Option<int>
    decreases s.len(),
{
    if s.len() == 0 {
        None
    } else if s.last().id == id && find_index(s.drop_last(), id) is None {
        Some(s.len() - 1)
    } else {
        find_index(s.drop_last(), id)
    }
}

/// What a valid entry of `scenes.json` becomes.
pub open spec fn scene_view(d: SceneDef) -> ScenarioView {
    ScenarioView {
        id: d.id@,
        name: trim_spec(d.name@),
        base: d.base,
        threshold_bits: match d.threshold_bits {
            Some(b) => b,
            None => default_threshold_bits(d.base),
        },
        fixed: false,
    }
}

/// An entry is dropped when its id or name is blank, its id is built-in, or
/// an earlier kept entry already has its id.
pub open spec fn scene_dropped(d: SceneDef, kept: Seq<ScenarioView>) -> bool {
    ||| trim_spec(d.id@).len() == 0
    ||| trim_spec(d.name@).len() == 0
    ||| is_builtin_id(d.id@)
    ||| id_used(kept, d.id@)
}

/// The custom scenarios kept from a list of entries, in order.
pub open spec fn sanitize(defs: Seq<SceneDef>) -> Seq<ScenarioView>
    decreases defs.len(),
{
    if defs.len() == 0 {
        Seq::empty()
    } else if scene_dropped(defs.last(), sanitize(defs.drop_last())) {
        sanitize(defs.drop_last())
    } else {
        sanitize(defs.drop_last()).push(scene_view(defs.last()))
    }
}

/// Lookup over built-ins then custom scenarios.
proof fn lemma_find_all(c: Seq<ScenarioView>, id: Seq<char>)
    ensures
        find_view(builtin_views() + c, id) == (if id == "formal"@ {
            Some(formal_view())
        } else if id == "casual"@ {
            Some(casual_view())
        } else {
            find_view(c, id)
        }),
{
    let all = builtin_views() + c;
    let a1 = all.drop_first();
    let a2 = a1.drop_first();
    assert(all[0] == formal_view());
    assert(a1[0] == casual_view());
    assert(a2 =~= c);
    assert(find_view(a1, id) == (if casual_view().id == id {
        Some(casual_view())
    } else {
        find_view(a2, id)
    }));
    assert(find_view(all, id) == (if formal_view().id == id {
        Some(formal_view())
    } else {
        find_view(a1, id)
    }));
}

/// In a table with distinct ids, the lookup finds the entry at the id's index.
proof fn lemma_find_view_index(c: Seq<ScenarioView>, id: Seq<char>)
    requires
        custom_wf(c),
    ensures
        find_view(c, id) == (match find_index(c, id) {
            Some(i) => Some(c[i]),
            None => None,
        }),
        find_index(c, id) is Some <==> id_used(c, id),
        find_index(c, id) matches Some(i) ==> 0 <= i < c.len() && c[i].id == id,
    decreases c.len(),
{
    if c.len() > 0 {
        let r = c.drop_last();
        assert forall|i: int| 0 <= i < r.len() implies !is_builtin_id(#[trigger] r[i].id) by {
            assert(r[i] == c[i]);
        }
        assert forall|i: int, j: int| 0 <= i < j < r.len() implies (#[trigger] r[i]).id != (
        #[trigger] r[j]).id by {
            assert(r[i] == c[i] && r[j] == c[j]);
        }
        lemma_find_view_index(r, id);
        let f = c.drop_first();
        assert forall|i: int| 0 <= i < f.len() implies !is_builtin_id(#[trigger] f[i].id) by {
            assert(f[i] == c[i + 1]);
        }
        assert forall|i: int, j: int| 0 <= i < j < f.len() implies (#[trigger] f[i]).id != (
        #[trigger] f[j]).id by {
            assert(f[i] == c[i + 1] && f[j] == c[j + 1]);
        }
        lemma_find_view_index(f, id);
        if id_used(r, id) {
            let k = choose|k: int| 0 <= k < r.len() && (#[trigger] r[k]).id == id;
            assert(c[k] == r[k]);
        }
        if id_used(c, id) && !id_used(r, id) {
            let k = choose|k: int| 0 <= k < c.len() && (#[trigger] c[k]).id == id;
            if k < c.len() - 1 {
                assert(r[k] == c[k]);
            }
        }
        if id_used(f, id) {
            let k = choose|k: int| 0 <= k < f.len() && (#[trigger] f[k]).id == id;
            assert(c[k + 1] == f[k]);
        }
        if id_used(c, id) && !id_used(f, id) {
            let k = choose|k: int| 0 <= k < c.len() && (#[trigger] c[k]).id == id;
            if k > 0 {
                assert(f[k - 1] == c[k]);
            }
        }
        if c[0].id == id {
            if let Some(i) = find_index(r, id) {
                assert(r[i] == c[i]);
            }
        }
        if c.last().id == id && c.len() > 1 {
            assert(f.last() == c.last());
            assert(f[f.len() - 1] == c[c.len() - 1]);
        }
    }
}

proof fn lemma_wf_push(c: Seq<ScenarioView>, s: ScenarioView)
    requires
        custom_wf(c),
        !is_builtin_id(s.id),
        !id_used(c, s.id),
    ensures
        custom_wf(c.push(s)),
{
    let d = c.push(s);
    assert forall|a: int| 0 <= a < d.len() implies !is_builtin_id(#[trigger] d[a].id) by {
        if a < c.len() {
            assert(d[a] == c[a]);
        }
    }
    assert forall|a: int, b: int| 0 <= a < b < d.len() implies (#[trigger] d[a]).id != (
    #[trigger] d[b]).id by {
        assert(d[a] == c[a]);
        if b < c.len() {
            assert(d[b] == c[b]);
        }
    }
}

proof fn lemma_wf_update(c: Seq<ScenarioView>, i: int, s: ScenarioView)
    requires
        custom_wf(c),
        0 <= i < c.len(),
        s.id == c[i].id,
    ensures
        custom_wf(c.update(i, s)),
{
    let d = c.update(i, s);
    assert forall|a: int| 0 <= a < d.len() implies !is_builtin_id(#[trigger] d[a].id) by {
        assert(d[a].id == c[a].id);
    }
    assert forall|a: int, b: int| 0 <= a < b < d.len() implies (#[trigger] d[a]).id != (
    #[trigger] d[b]).id by {
        assert(d[a].id == c[a].id && d[b].id == c[b].id);
    }
}

proof fn lemma_wf_remove(c: Seq<ScenarioView>, i: int)
    requires
        custom_wf(c),
        0 <= i < c.len(),
    ensures
        custom_wf(c.remove(i)),
        !id_used(c.remove(i), c[i].id),
{
    let d = c.remove(i);
    assert forall|a: int| 0 <= a < d.len() implies !is_builtin_id(#[trigger] d[a].id) by {
        if a < i {
            assert(d[a] == c[a]);
        } else {
            assert(d[a] == c[a + 1]);
        }
    }
    assert forall|a: int, b: int| 0 <= a < b < d.len() implies (#[trigger] d[a]).id != (
    #[trigger] d[b]).id by {
        let a0 = if a < i {
            a
        } else {
            a + 1
        };
        let b0 = if b < i {
            b
        } else {
            b + 1
        };
        assert(d[a] == c[a0]);
        assert(d[b] == c[b0]);
        assert(c[a0].id != c[b0].id);
    }
    if id_used(d, c[i].id) {
        let k = choose|k: int| 0 <= k < d.len() && (#[trigger] d[k]).id == c[i].id;
        if k < i {
            assert(d[k] == c[k]);
            assert(c[k].id != c[i].id);
        } else {
            assert(d[k] == c[k + 1]);
            assert(c[i].id != c[k + 1].id);
        }
    }
}

/// In a valid table, looking up a custom scenario's id finds it.
proof fn lemma_found_at(c: Seq<ScenarioView>, i: int)
    requires
        custom_wf(c),
        0 <= i < c.len(),
    ensures
        find_view(builtin_views() + c, c[i].id) == Some(c[i]),
{
    let id = c[i].id;
    assert(!is_builtin_id(id));
    lemma_find_all(c, id);
    lemma_find_view_index(c, id);
    assert(id_used(c, id));
    let k = find_index(c, id)->0;
    if k != i {
        if k < i {
            assert(c[k].id != c[i].id);
        } else {
            assert(c[i].id != c[k].id);
        }
    }
}

/// An id that no custom scenario carries and that is not built in is unknown.
proof fn lemma_absent(c: Seq<ScenarioView>, id: Seq<char>)
    requires
        custom_wf(c),
        !is_builtin_id(id),
        !id_used(c, id),
    ensures
        find_view(builtin_views() + c, id) is None,
{
    lemma_find_all(c, id);
    lemma_find_view_index(c, id);
}

/// The built-in scenarios are always found under their ids, whatever custom
/// scenarios exist.
pub proof fn lemma_builtins_always_present(c: Seq<ScenarioView>)
    ensures
        find_view(builtin_views() + c, "formal"@) == Some(formal_view()),
        find_view(builtin_views() + c, "casual"@) == Some(casual_view()),
{
    reveal_strlit("formal");
    reveal_strlit("casual");
    assert("casual"@[0] != "formal"@[0]);
    lemma_find_all(c, "formal"@);
    lemma_find_all(c, "casual"@);
}

/// A scenario just added under a fresh id is found under that id.
pub proof fn lemma_added_scenario_found(c: Seq<ScenarioView>, s: ScenarioView)
    requires
        custom_wf(c),
        !is_builtin_id(s.id),
        !id_used(c, s.id),
    ensures
        custom_wf(c.push(s)),
        find_view(builtin_views() + c.push(s), s.id) == Some(s),
{
    lemma_wf_push(c, s);
    lemma_found_at(c.push(s), c.len() as int);
}

/// Renaming or re-thresholding a custom scenario keeps it under its id, so
/// rules and contacts that refer to it still do.
pub proof fn lemma_update_keeps_reference(c: Seq<ScenarioView>, i: int, s: ScenarioView)
    requires
        custom_wf(c),
        0 <= i < c.len(),
        s.id == c[i].id,
    ensures
        custom_wf(c.update(i, s)),
        find_view(builtin_views() + c.update(i, s), s.id) == Some(s),
{
    lemma_wf_update(c, i, s);
    lemma_found_at(c.update(i, s), i);
}

/// After a custom scenario is removed its id is unknown: what still refers
/// to it falls back to the formal defaults.
pub proof fn lemma_removed_scenario_unknown(c: Seq<ScenarioView>, i: int)
    requires
        custom_wf(c),
        0 <= i < c.len(),
    ensures
        custom_wf(c.remove(i)),
        find_view(builtin_views() + c.remove(i), c[i].id) is None,
{
    lemma_wf_remove(c, i);
    lemma_absent(c.remove(i), c[i].id);
}

/// Scenario table: the two built-in scenarios followed by the custom ones.
#[derive(Debug)]
pub struct ScenarioManager {
    custom: Vec<Scenario>,
}

impl View for ScenarioManager {
    type V = Seq<ScenarioView>;

    /// The custom scenarios.
    closed spec fn view(&self) -> Seq<ScenarioView> {
        self.custom@.map_values(|s: Scenario| s@)
    }
}

impl ScenarioManager {
    /// Every scenario, built-ins first.
    pub open spec fn all_views(&self) -> Seq<ScenarioView> {
        builtin_views() + self@
    }

    #[verifier::type_invariant]
    closed spec fn wf(&self) -> bool {
        custom_wf(self@)
    }

    /// Only the built-in scenarios.
    pub fn builtin_only() -> (m: ScenarioManager)
        ensures
            m@.len() == 0,
    {
        let m = ScenarioManager { custom: Vec::new() };
        assert(m@ =~= Seq::<ScenarioView>::empty());
        m
    }

    /// Build from `scenes.json` entries, dropping invalid and duplicate ones
    /// (a damaged file must not take the judgement chain down).
    pub fn from_scenes(defs: Vec<SceneDef>) -> (m: ScenarioManager)
        ensures
            m@ == sanitize(defs@),
            custom_wf(m@),
    {
        let ghost all = defs@;
        let mut out: Vec<Scenario> = Vec::new();
        assert(out@.map_values(|s: Scenario| s@) =~= sanitize(all.subrange(0, 0)));
        for d in it: defs.into_iter()
            invariant
                it.seq() == all,
                out@.map_values(|s: Scenario| s@) == sanitize(all.subrange(0, it.index() as int)),
                custom_wf(out@.map_values(|s: Scenario| s@)),
        {
            let ghost i = it.index();
            let ghost kept = out@.map_values(|s: Scenario| s@);
            assert(all.subrange(0, i + 1).drop_last() =~= all.subrange(0, i as int));
            assert(d == all[i as int]);
            let blank_id = trim(d.id.as_str()).is_empty();
            let name = trim(d.name.as_str());
            let blank_name = name.is_empty();
            let builtin = str_eq(d.id.as_str(), FORMAL_ID) || str_eq(d.id.as_str(), CASUAL_ID);
            let mut dup = false;
            let mut k: usize = 0;
            while k < out.len()
                invariant
                    k <= out@.len(),
                    kept == out@.map_values(|s: Scenario| s@),
                    dup <==> exists|j: int| 0 <= j < k && (#[trigger] kept[j]).id == d.id@,
                decreases out@.len() - k,
            {
                assert(kept[k as int] == out@[k as int]@);
                if str_eq(out[k].id.as_str(), d.id.as_str()) {
                    dup = true;
                }
                k = k + 1;
            }
            if !(blank_id || blank_name || builtin || dup) {
                let threshold_bits = match d.threshold_bits {
                    Some(b) => b,
                    None => default_threshold_for_base(d.base),
                };
                let sc = Scenario {
                    id: d.id,
                    name: String::from_str(name),
                    base: d.base,
                    threshold_bits,
                    fixed: false,
                };
                let ghost v = sc@;
                out.push(sc);
                assert(out@.map_values(|s: Scenario| s@) =~= kept.push(v));
            }
        }
        assert(all.subrange(0, all.len() as int) =~= all);
        ScenarioManager { custom: out }
    }

    /// Every scenario, built-ins first.
    pub fn all(&self) -> (v: Vec<Scenario>)
        ensures
            v@.map_values(|s: Scenario| s@) == self.all_views(),
    {
        let mut v = builtin();
        let mut i: usize = 0;
        while i < self.custom.len()
            invariant
                i <= self.custom@.len(),
                v@.map_values(|s: Scenario| s@) == builtin_views() + self@.subrange(0, i as int),
            decreases self.custom@.len() - i,
        {
            let ghost before = v@.map_values(|s: Scenario| s@);
            let c = self.custom[i].clone();
            assert(c@ == self@[i as int]);
            v.push(c);
            assert(v@.map_values(|s: Scenario| s@) =~= before.push(self@[i as int]));
            assert(self@.subrange(0, i + 1) =~= self@.subrange(0, i as int).push(self@[i as int]));
            assert(v@.map_values(|s: Scenario| s@) =~= builtin_views() + self@.subrange(
                0,
                i + 1,
            ));
            i = i + 1;
        }
        assert(self@.subrange(0, self@.len() as int) =~= self@);
        v
    }

    /// Index of the custom scenario with the id.
    fn custom_index(&self, id: &str) -> (r: Option<usize>)
        ensures
            r matches Some(i) ==> i < self@.len() && self@[i as int].id == id@,
            r is None ==> !id_used(self@, id@),
            r matches Some(i) ==> find_index(self@, id@) == Some(i as int),
            r is None ==> find_index(self@, id@) is None,
    {
        proof {
            use_type_invariant(self);
            lemma_find_view_index(self@, id@);
        }
        let mut i: usize = 0;
        while i < self.custom.len()
            invariant
                i <= self.custom@.len(),
                custom_wf(self@),
                forall|j: int| 0 <= j < i ==> (#[trigger] self@[j]).id != id@,
            decreases self.custom@.len() - i,
        {
            if str_eq(self.custom[i].id.as_str(), id) {
                proof {
                    lemma_find_view_index(self@, id@);
                    assert(self@[i as int] == self.custom@[i as int]@);
                    if let Some(k) = find_index(self@, id@) {
                        assert(self@[k].id == id@);
                        if k != i {
                            assert(self@[k].id != self@[i as int].id);
                        }
                    }
                }
                return Some(i);
            }
            assert(self@[i as int] == self.custom@[i as int]@);
            i = i + 1;
        }
        proof {
            lemma_find_view_index(self@, id@);
        }
        None
    }

    /// The scenario with the id, if any.
    pub fn get(&self, id: &str) -> (r: Option<Scenario>)
        ensures
            (match r {
                Some(s) => Some(s@),
                None => None,
            }) == find_view(self.all_views(), id@),
    {
        proof {
            use_type_invariant(self);
            lemma_find_all(self@, id@);
            lemma_find_view_index(self@, id@);
        }
        if str_eq(id, FORMAL_ID) {
            return Some(formal());
        }
        if str_eq(id, CASUAL_ID) {
            return Some(casual());
        }
        match self.custom_index(id) {
            Some(i) => Some(self.custom[i].clone()),
            None => None,
        }
    }

    /// Whether the id names a scenario (built-ins included).
    pub fn is_known(&self, id: &str) -> (b: bool)
        ensures
            b == find_view(self.all_views(), id@) is Some,
    {
        proof {
            use_type_invariant(self);
            lemma_find_all(self@, id@);
            lemma_find_view_index(self@, id@);
        }
        str_eq(id, FORMAL_ID) || str_eq(id, CASUAL_ID) || self.custom_index(id).is_some()
    }

    /// Base profile of a scenario; unknown ids (dangling references) are Formal.
    pub fn base_of(&self, id: &str) -> (p: Profile)
        ensures
            p == match find_view(self.all_views(), id@) {
                Some(v) => v.base,
                None => Profile::Formal,
            },
    {
        match self.get(id) {
            Some(s) => s.base,
            None => Profile::Formal,
        }
    }

    /// Threshold of a scenario (bit pattern); unknown ids get the formal default.
    pub fn threshold_bits_of(&self, id: &str) -> (b: u32)
        ensures
            b == match find_view(self.all_views(), id@) {
                Some(v) => v.threshold_bits,
                None => THRESHOLD_FORMAL_BITS,
            },
    {
        match self.get(id) {
            Some(s) => s.threshold_bits,
            None => THRESHOLD_FORMAL_BITS,
        }
    }

    /// Display name; an unknown id is returned as is.
    pub fn name_of(&self, id: &str) -> (n: String)
        ensures
            n@ == match find_view(self.all_views(), id@) {
                Some(v) => v.name,
                None => id@,
            },
    {
        match self.get(id) {
            Some(s) => s.name,
            None => String::from_str(id),
        }
    }

    /// Add a custom scenario. The name is trimmed; it must be non-empty and
    /// no scenario (built-ins included) may already carry it. The new
    /// scenario takes the smallest free id and the formal base.
    pub fn add(&mut self, name: &str, threshold_bits: u32) -> (r: Result<Scenario, String>)
        requires
            old(self)@.len() < usize::MAX,
        ensures
            ({
                let n = trim_spec(name@);
                match r {
                    Ok(s) => {
                        &&& n.len() > 0
                        &&& !name_taken(old(self).all_views(), n)
                        &&& exists|k: nat| smallest_free(old(self)@, k) && s@.id == scenario_id(k)
                        &&& s@.name == n
                        &&& s@.base == Profile::Formal
                        &&& s@.threshold_bits == threshold_bits
                        &&& !s@.fixed
                        &&& final(self)@ == old(self)@.push(s@)
                    },
                    Err(e) => {
                        &&& final(self)@ == old(self)@
                        &&& if n.len() == 0 {
                            e@ == empty_name_message()
                        } else {
                            name_taken(old(self).all_views(), n) && e@ == name_exists_message(n)
                        }
                    },
                }
            }),
    {
        proof {
            use_type_invariant(&*self);
        }
        let n = trim(name);
        if n.is_empty() {
            return Err(String::from_str("场景名不能为空"));
        }
        if self.has_name(n) {
            return Err(name_exists(n));
        }
        let id = self.next_id();
        let ghost k = choose|k: nat| smallest_free(self@, k) && id@ == scenario_id(k);
        let s = Scenario {
            id,
            name: String::from_str(n),
            base: Profile::Formal,
            threshold_bits,
            fixed: false,
        };
        let out = s.clone();
        let ghost before = self@;
        proof {
            lemma_scenario_id_not_builtin(k);
            lemma_wf_push(before, out@);
        }
        let mut custom = Vec::new();
        std::mem::swap(&mut custom, &mut self.custom);
        custom.push(s);
        assert(custom@.map_values(|x: Scenario| x@) =~= before.push(out@));
        self.custom = custom;
        Ok(out)
    }

    /// Rename a custom scenario and set its threshold; its id and base stay.
    /// Built-in scenarios are refused like unknown ids.
    pub fn update(&mut self, id: &str, name: &str, threshold_bits: u32) -> (r: Result<
        Scenario,
        String,
    >)
        ensures
            ({
                let n = trim_spec(name@);
                match r {
                    Ok(s) => {
                        &&& n.len() > 0
                        &&& !name_taken_by_other(old(self).all_views(), n, id@)
                        &&& find_index(old(self)@, id@) matches Some(i) && {
                            &&& s@ == ScenarioView {
                                name: n,
                                threshold_bits,
                                ..old(self)@[i]
                            }
                            &&& final(self)@ == old(self)@.update(i, s@)
                        }
                    },
                    Err(e) => {
                        &&& final(self)@ == old(self)@
                        &&& if find_index(old(self)@, id@) is None {
                            e@ == missing_custom_message(id@)
                        } else if n.len() == 0 {
                            e@ == empty_name_message()
                        } else {
                            name_taken_by_other(old(self).all_views(), n, id@) && e@
                                == name_exists_message(n)
                        }
                    },
                }
            }),
    {
        proof {
            use_type_invariant(&*self);
        }
        let idx = match self.custom_index(id) {
            Some(i) => i,
            None => {
                let mut e = String::from_str("场景不存在或为内置场景：");
                e.append(id);
                return Err(e);
            },
        };
        let n = trim(name);
        if n.is_empty() {
            return Err(String::from_str("场景名不能为空"));
        }
        if self.has_name_other(n, id) {
            return Err(name_exists(n));
        }
        let ghost before = self@;
        let mut custom = Vec::new();
        std::mem::swap(&mut custom, &mut self.custom);
        let old_s = custom.remove(idx);
        let s = Scenario {
            id: old_s.id,
            name: String::from_str(n),
            base: old_s.base,
            threshold_bits,
            fixed: old_s.fixed,
        };
        let out = s.clone();
        custom.insert(idx, s);
        assert(custom@.map_values(|x: Scenario| x@) =~= before.update(idx as int, out@));
        proof {
            lemma_wf_update(before, idx as int, out@);
        }
        self.custom = custom;
        Ok(out)
    }

    /// Remove a custom scenario; references to it fall back to the formal
    /// defaults afterwards.
    pub fn remove(&mut self, id: &str) -> (r: Result<(), String>)
        ensures
            match r {
                Ok(()) => {
                    &&& !is_builtin_id(id@)
                    &&& find_index(old(self)@, id@) matches Some(i) && final(self)@ == old(
                        self,
                    )@.remove(i)
                },
                Err(e) => {
                    &&& final(self)@ == old(self)@
                    &&& if is_builtin_id(id@) {
                        e@ == builtin_remove_message()
                    } else {
                        !id_used(old(self)@, id@) && e@ == missing_message(id@)
                    }
                },
            },
    {
        proof {
            use_type_invariant(&*self);
        }
        if str_eq(id, FORMAL_ID) || str_eq(id, CASUAL_ID) {
            return Err(String::from_str("内置场景不可删除"));
        }
        let idx = match self.custom_index(id) {
            Some(i) => i,
            None => {
                let mut e = String::from_str("场景不存在：");
                e.append(id);
                return Err(e);
            },
        };
        let ghost before = self@;
        let mut custom = Vec::new();
        std::mem::swap(&mut custom, &mut self.custom);
        custom.remove(idx);
        assert(custom@.map_values(|x: Scenario| x@) =~= before.remove(idx as int));
        proof {
            lemma_wf_remove(before, idx as int);
        }
        self.custom = custom;
        Ok(())
    }

    /// The custom scenarios as `scenes.json` entries, thresholds spelled out.
    pub fn scene_defs(&self) -> (v: Vec<SceneDef>)
        ensures
            v@.len() == self@.len(),
            forall|i: int|
                0 <= i < v@.len() ==> {
                    &&& (#[trigger] v@[i]).id@ == self@[i].id
                    &&& v@[i].name@ == self@[i].name
                    &&& v@[i].base == self@[i].base
                    &&& v@[i].threshold_bits == Some(self@[i].threshold_bits)
                },
    {
        let mut v: Vec<SceneDef> = Vec::new();
        let mut i: usize = 0;
        while i < self.custom.len()
            invariant
                i <= self.custom@.len(),
                v@.len() == i,
                forall|j: int|
                    0 <= j < i ==> {
                        &&& (#[trigger] v@[j]).id@ == self@[j].id
                        &&& v@[j].name@ == self@[j].name
                        &&& v@[j].base == self@[j].base
                        &&& v@[j].threshold_bits == Some(self@[j].threshold_bits)
                    },
            decreases self.custom@.len() - i,
        {
            let c = &self.custom[i];
            assert(self@[i as int] == c@);
            v.push(
                SceneDef {
                    id: c.id.clone(),
                    name: c.name.clone(),
                    base: c.base,
                    threshold_bits: Some(c.threshold_bits),
                },
            );
            i = i + 1;
        }
        v
    }

    /// Whether any scenario has the name.
    fn has_name(&self, name: &str) -> (b: bool)
        ensures
            b == name_taken(self.all_views(), name@),
    {
        let all = self.all();
        let ghost av = self.all_views();
        let mut i: usize = 0;
        while i < all.len()
            invariant
                i <= all@.len(),
                av == self.all_views(),
                av == all@.map_values(|s: Scenario| s@),
                forall|j: int| 0 <= j < i ==> (#[trigger] av[j]).name != name@,
            decreases all@.len() - i,
        {
            assert(av[i as int] == all@[i as int]@);
            if str_eq(all[i].name.as_str(), name) {
                assert(av[i as int].name == name@);
                return true;
            }
            i = i + 1;
        }
        false
    }

    /// Whether a scenario other than `id` has the name.
    fn has_name_other(&self, name: &str, id: &str) -> (b: bool)
        ensures
            b == name_taken_by_other(self.all_views(), name@, id@),
    {
        let all = self.all();
        let ghost av = self.all_views();
        let mut i: usize = 0;
        while i < all.len()
            invariant
                i <= all@.len(),
                av == self.all_views(),
                av == all@.map_values(|s: Scenario| s@),
                forall|j: int| 0 <= j < i ==> !((#[trigger] av[j]).name == name@ && av[j].id != id@),
            decreases all@.len() - i,
        {
            assert(av[i as int] == all@[i as int]@);
            if str_eq(all[i].name.as_str(), name) && !str_eq(all[i].id.as_str(), id) {
                assert(av[i as int].name == name@ && av[i as int].id != id@);
                return true;
            }
            i = i + 1;
        }
        false
    }

    /// The smallest free id `s{n}` (holes left by removals are reused).
    fn next_id(&self) -> (r: String)
        requires
            self@.len() < usize::MAX,
        ensures
            exists|n: nat| smallest_free(self@, n) && r@ == scenario_id(n),
    {
        proof {
            lemma_some_slot_free(self@);
            reveal_strlit("s");
        }
        let bound = self.custom.len();
        let mut n: usize = 1;
        loop
            invariant
                1 <= n <= bound + 1,
                bound == self@.len(),
                bound < usize::MAX,
                "s"@ == seq!['s'],
                exists|m: nat| 1 <= m <= self@.len() + 1 && !id_used(self@, #[trigger] scenario_id(m)),
                forall|m: nat| 1 <= m < n ==> id_used(self@, #[trigger] scenario_id(m)),
            decreases bound + 1 - n,
        {
            let mut cand = String::from_str("s");
            let digits = decimal_text(n);
            cand.append(digits.as_str());
            assert(cand@ =~= scenario_id(n as nat));
            if self.custom_index(cand.as_str()).is_none() {
                assert(smallest_free(self@, n as nat));
                return cand;
            }
            proof {
                let m = choose|m: nat| 1 <= m <= self@.len() + 1 && !id_used(self@, #[trigger] scenario_id(m));
                if m <= n {
                    assert(id_used(self@, scenario_id(m)));
                }
            }
            n = n + 1;
        }
    }
}

fn formal() -> (s: Scenario)
    ensures
        s@ == formal_view(),
{
    Scenario {
        id: String::from_str(FORMAL_ID),
        name: String::from_str("正式"),
        base: Profile::Formal,
        threshold_bits: THRESHOLD_FORMAL_BITS,
        fixed: true,
    }
}

fn casual() -> (s: Scenario)
    ensures
        s@ == casual_view(),
{
    Scenario {
        id: String::from_str(CASUAL_ID),
        name: String::from_str("个人"),
        base: Profile::Casual,
        threshold_bits: THRESHOLD_CASUAL_BITS,
        fixed: true,
    }
}

fn builtin() -> (v: Vec<Scenario>)
    ensures
        v@.map_values(|s: Scenario| s@) == builtin_views(),
{
    let mut v: Vec<Scenario> = Vec::new();
    v.push(formal());
    v.push(casual());
    assert(v@.map_values(|s: Scenario| s@) =~= builtin_views());
    v
}

} // verus!
