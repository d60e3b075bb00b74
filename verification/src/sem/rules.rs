//! L1 rule engine over `rules.json` entries.
//!
//! Three match modes:
//! - `word`: literal match whose ASCII-alphanumeric neighbours are not word
//!   characters (`sb` does not hit inside `absb`; CJK has no boundary);
//! - `substring`: literal contained anywhere;
//! - `regex`: regular expression (the `regex` crate).
//!
//! Literal rules share one Aho-Corasick automaton; one scan yields every
//! candidate match, and the first applicable one wins. Regex rules are tried
//! afterwards, in order.

use vstd::prelude::*;
use vstd::string::*;
use vstd::utf8::encode_utf8;

use aho_corasick::{AhoCorasick, BuildError};
use regex::Regex;

use crate::text::str_eq;

verus! {

#[verifier::external_type_specification]
#[verifier::external_body]
pub struct ExAhoCorasick(AhoCorasick);

#[verifier::external_type_specification]
#[verifier::external_body]
pub struct ExBuildError(BuildError);

#[verifier::external_type_specification]
#[verifier::external_body]
pub struct ExRegex(Regex);

#[verifier::external_type_specification]
#[verifier::external_body]
pub struct ExRegexError(regex::Error);

/// The patterns (as bytes, in order) that an automaton searches for.
pub uninterp spec fn ac_patterns(ac: AhoCorasick) -> Seq<Seq<u8>>;

/// Whether `AhoCorasick::new` accepts these patterns (it refuses sets too large to build).
pub uninterp spec fn ac_builds(patterns: Seq<Seq<u8>>) -> bool;

/// The non-overlapping matches, in order, that `AhoCorasick::find_iter` with
/// the default (standard) semantics reports: (pattern index, start byte, end byte).
pub uninterp spec fn ac_matches(patterns: Seq<Seq<u8>>, haystack: Seq<u8>) -> Seq<(int, int, int)>;

/// Whether `Regex::new` accepts the pattern.
pub uninterp spec fn regex_compiles(pattern: Seq<char>) -> bool;

/// The source text a compiled regex was built from (`Regex::as_str`).
pub uninterp spec fn regex_source(re: Regex) -> Seq<char>;

/// Whether the regex with this source matches somewhere in the haystack (`Regex::is_match`).
pub uninterp spec fn regex_is_match(pattern: Seq<char>, haystack: Seq<char>) -> bool;

pub open spec fn bytes_of_all(v: Seq<String>) -> Seq<Seq<u8>> {
    v.map_values(|s: String| encode_utf8(s@))
}

/// `AhoCorasick::new` with the default configuration: builds an automaton for
/// exactly these patterns, or fails for sets it cannot build.
#[verifier::external_body]
fn ac_new(patterns: &Vec<String>) -> (r: Result<AhoCorasick, BuildError>)
    ensures
        r is Ok <==> ac_builds(bytes_of_all(patterns@)),
        r matches Ok(ac) ==> ac_patterns(ac) == bytes_of_all(patterns@),
{
    AhoCorasick::new(patterns)
}

/// The `Display` text of an automaton build error (nothing is promised of it).
#[verifier::external_body]
fn ac_error_text(e: &BuildError) -> String {
    format!("{e}")
}

/// `AhoCorasick::find_iter` collected: the automaton's non-overlapping matches in
/// order; each names a searched pattern and a byte range of the haystack equal to it.
#[verifier::external_body]
fn ac_find_all(ac: &AhoCorasick, text: &str) -> (r: Vec<(usize, usize, usize)>)
    ensures
        r@.len() == ac_matches(ac_patterns(*ac), text.spec_bytes()).len(),
        forall|i: int|
            0 <= i < r@.len() ==> {
                let m = #[trigger] r@[i];
                let n = ac_matches(ac_patterns(*ac), text.spec_bytes())[i];
                &&& m.0 as int == n.0
                &&& m.1 as int == n.1
                &&& m.2 as int == n.2
                &&& m.0 < ac_patterns(*ac).len()
                &&& m.1 <= m.2 <= text.spec_bytes().len()
                &&& text.spec_bytes().subrange(m.1 as int, m.2 as int) == ac_patterns(
                    *ac,
                )[m.0 as int]
            },
{
    ac.find_iter(text).map(|m| (m.pattern().as_usize(), m.start(), m.end())).collect()
}

/// `Regex::new`: compiles the pattern, keeping it as the regex's source.
#[verifier::external_body]
fn regex_new(pattern: &str) -> (r: Result<Regex, regex::Error>)
    ensures
        r is Ok <==> regex_compiles(pattern@),
        r matches Ok(re) ==> regex_source(re) == pattern@,
{
    Regex::new(pattern)
}

/// The `Display` text of a regex compile error (nothing is promised of it).
#[verifier::external_body]
fn regex_error_text(e: &regex::Error) -> String {
    format!("{e}")
}

/// `Regex::is_match`: whether the regex matches anywhere in the haystack.
#[verifier::external_body]
fn regex_match(re: &Regex, text: &str) -> (b: bool)
    ensures
        b == regex_is_match(regex_source(*re), text@),
{
    re.is_match(text)
}

/// Scenario profile (base of a scenario: which L2 head it uses).
#[derive(Debug, Clone, Copy, PartialEq, Eq, Structural)]
pub enum Profile {
    Formal,
    Casual,
}

impl Profile {
    pub open spec fn spec_name(self) -> Seq<char> {
        match self {
            Profile::Formal => "formal"@,
            Profile::Casual => "casual"@,
        }
    }

    pub fn as_str(self) -> (s: &'static str)
        ensures
            s@ == self.spec_name(),
    {
        match self {
            Profile::Formal => "formal",
            Profile::Casual => "casual",
        }
    }
}

/// How a rule's pattern is matched.
#[derive(Debug, Clone, Copy, PartialEq, Eq, Structural)]
pub enum MatchKind {
    Word,
    Substring,
    Regex,
}

/// One rule entry (a hit always means Block).
#[derive(Debug, Clone)]
pub struct RuleDef {
    pub pattern: String,
    /// word | substring | regex
    pub match_kind: MatchKind,
    /// Scenario ids the rule applies to; `all` means every scenario.
    pub applies_to: Vec<String>,
}

/// Scenarios of a rule that names none: every scenario (`all`).
pub fn default_applies() -> (v: Vec<String>)
    ensures
        v@.len() == 1,
        v@[0]@ == "all"@,
{
    let mut v: Vec<String> = Vec::new();
    v.push(String::from_str("all"));
    v
}

/// A rule hit: the pattern that matched.
#[derive(Debug, Clone, PartialEq)]
pub struct RuleHit {
    pub pattern: String,
}

/// A rule applies to a scenario when its list names the scenario or `all`.
pub open spec fn spec_applies(def: RuleDef, scenario: Seq<char>) -> bool {
    exists|i: int|
        0 <= i < def.applies_to@.len() && (#[trigger] def.applies_to@[i]@ == "all"@
            || def.applies_to@[i]@ == scenario)
}

/// Bytes that count as part of a Latin word: ASCII letters, digits, underscore.
pub open spec fn is_word_byte(b: u8) -> bool {
    ||| 0x30 <= b <= 0x39
    ||| 0x41 <= b <= 0x5A
    ||| 0x61 <= b <= 0x7A
    ||| b == 0x5F
}

/// A byte range is word-bounded when neither neighbour is a word byte.
pub open spec fn spec_word_bounded(bytes: Seq<u8>, start: int, end: int) -> bool {
    &&& (start == 0 || start - 1 >= bytes.len() || !is_word_byte(bytes[start - 1]))
    &&& (end >= bytes.len() || !is_word_byte(bytes[end]))
}

/// ASCII letters, ASCII digits and the underscore: the characters a Latin
/// word is made of.
pub open spec fn ascii_word_char(c: char) -> bool {
    ||| '0' <= c <= '9'
    ||| 'A' <= c <= 'Z'
    ||| 'a' <= c <= 'z'
    ||| c == '_'
}

/// A word rule's match is bounded exactly when the byte before it (if any)
/// and the byte after it (if any) are not the UTF-8 of an ASCII letter, an
/// ASCII digit or `_`. Every other byte, CJK and punctuation included, bounds
/// a word.
pub proof fn lemma_word_bounds_are_ascii_word_chars(bytes: Seq<u8>, start: int, end: int)
    requires
        0 <= start <= end <= bytes.len(),
    ensures
        spec_word_bounded(bytes, start, end) <==> ((start == 0 || !(bytes[start - 1] < 0x80
            && ascii_word_char(bytes[start - 1] as char))) && (end == bytes.len() || !(bytes[end]
            < 0x80 && ascii_word_char(bytes[end] as char)))),
{
}

/// A word rule glued to a digit, a letter or `_` on either side is no hit:
/// `kpi` inside `kpi2024` or `_kpi` is not word-bounded.
pub proof fn lemma_word_glued_to_word_char_unbounded(bytes: Seq<u8>, start: int, end: int, c: char)
    requires
        0 <= start <= end <= bytes.len(),
        ascii_word_char(c),
        (start > 0 && bytes[start - 1] == c as u8) || (end < bytes.len() && bytes[end] == c as u8),
    ensures
        !spec_word_bounded(bytes, start, end),
{
}

/// Literal rules of a definition list, in order.
pub open spec fn literal_part(defs: Seq<RuleDef>) -> Seq<RuleDef>
    decreases defs.len(),
{
    if defs.len() == 0 {
        Seq::empty()
    } else if defs.last().match_kind == MatchKind::Regex {
        literal_part(defs.drop_last())
    } else {
        literal_part(defs.drop_last()).push(defs.last())
    }
}

/// Regex rules of a definition list, in order.
pub open spec fn regex_part(defs: Seq<RuleDef>) -> Seq<RuleDef>
    decreases defs.len(),
{
    if defs.len() == 0 {
        Seq::empty()
    } else if defs.last().match_kind == MatchKind::Regex {
        regex_part(defs.drop_last()).push(defs.last())
    } else {
        regex_part(defs.drop_last())
    }
}

/// A definition that `from_defs` refuses: empty pattern, or a regex that does not compile.
pub open spec fn def_rejected(d: RuleDef) -> bool {
    d.pattern@.len() == 0 || (d.match_kind == MatchKind::Regex && !regex_compiles(d.pattern@))
}

pub open spec fn pattern_bytes(defs: Seq<RuleDef>) -> Seq<Seq<u8>> {
    defs.map_values(|d: RuleDef| encode_utf8(d.pattern@))
}

/// Whether a literal match is a hit: its rule applies and, for word rules, it is word-bounded.
pub open spec fn literal_match_hits(
    lits: Seq<RuleDef>,
    m: (int, int, int),
    bytes: Seq<u8>,
    scenario: Seq<char>,
) -> bool {
    let d = lits[m.0];
    spec_applies(d, scenario) && (d.match_kind == MatchKind::Word ==> spec_word_bounded(
        bytes,
        m.1,
        m.2,
    ))
}

/// First hitting literal match at or after position `i`.
pub open spec fn first_literal_hit(
    lits: Seq<RuleDef>,
    ms: Seq<(int, int, int)>,
    i: int,
    bytes: Seq<u8>,
    scenario: Seq<char>,
) -> Option<RuleDef>
    decreases ms.len() - i,
{
    if i < 0 || i >= ms.len() {
        None
    } else if literal_match_hits(lits, ms[i], bytes, scenario) {
        Some(lits[ms[i].0])
    } else {
        first_literal_hit(lits, ms, i + 1, bytes, scenario)
    }
}

/// First regex rule at or after position `i` that applies, compiles and matches.
pub open spec fn first_regex_hit(
    regs: Seq<RuleDef>,
    i: int,
    text: Seq<char>,
    scenario: Seq<char>,
) -> Option<RuleDef>
    decreases regs.len() - i,
{
    if i < 0 || i >= regs.len() {
        None
    } else if spec_applies(regs[i], scenario) && regex_compiles(regs[i].pattern@)
        && regex_is_match(regs[i].pattern@, text) {
        Some(regs[i])
    } else {
        first_regex_hit(regs, i + 1, text, scenario)
    }
}

/// The pattern `first_hit` reports: none for empty text; else the first hitting
/// literal match in scan order; else the first hitting regex rule in order.
pub open spec fn spec_first_hit(
    lits: Seq<RuleDef>,
    regs: Seq<RuleDef>,
    text: Seq<char>,
    scenario: Seq<char>,
) -> Option<Seq<char>> {
    if text.len() == 0 {
        None
    } else {
        match first_literal_hit(
            lits,
            ac_matches(pattern_bytes(lits), encode_utf8(text)),
            0,
            encode_utf8(text),
            scenario,
        ) {
            Some(d) => Some(d.pattern@),
            None => match first_regex_hit(regs, 0, text, scenario) {
                Some(d) => Some(d.pattern@),
                None => None,
            },
        }
    }
}

/// Why a reported pattern is a hit: it belongs to an applicable literal rule
/// whose UTF-8 bytes occur in the text, or to an applicable regex rule whose
/// regex matches the text.
pub open spec fn hit_justified(
    lits: Seq<RuleDef>,
    regs: Seq<RuleDef>,
    p: Seq<char>,
    text: Seq<char>,
    scenario: Seq<char>,
) -> bool {
    ||| exists|i: int, s: int|
        0 <= i < lits.len() && (#[trigger] lits[i]).pattern@ == p && spec_applies(lits[i], scenario)
            && 0 <= s && s + encode_utf8(p).len() <= encode_utf8(text).len() && #[trigger] encode_utf8(
            text,
        ).subrange(s, s + encode_utf8(p).len()) == encode_utf8(p)
    ||| exists|i: int|
        0 <= i < regs.len() && (#[trigger] regs[i]).pattern@ == p && spec_applies(regs[i], scenario)
            && regex_is_match(p, text)
}

/// Compiled rule set (immutable; hot reload replaces it whole).
pub struct RuleSet {
    literal_ac: AhoCorasick,
    literals: Vec<(RuleDef, MatchKind)>,
    regexes: Vec<RuleDef>,
}

impl RuleSet {
    /// Literal rules, in definition order.
    pub closed spec fn literal_defs(self) -> Seq<RuleDef> {
        self.literals@.map_values(|p: (RuleDef, MatchKind)| p.0)
    }

    /// Regex rules, in definition order.
    pub closed spec fn regex_defs(self) -> Seq<RuleDef> {
        self.regexes@
    }

    /// The automaton searches for exactly the literal patterns, and each
    /// literal's recorded kind is its own.
    #[verifier::type_invariant]
    closed spec fn wf(self) -> bool {
        &&& ac_patterns(self.literal_ac) == pattern_bytes(self.literal_defs())
        &&& forall|i: int|
            0 <= i < self.literals@.len() ==> (#[trigger] self.literals@[i]).1
                == self.literals@[i].0.match_kind
    }
}

/// Literal rules that precede position `n`: their defs, patterns and kinds line up.
spec fn literal_state(
    literals: Seq<(RuleDef, MatchKind)>,
    patterns: Seq<String>,
    defs: Seq<RuleDef>,
) -> bool {
    &&& literals.map_values(|p: (RuleDef, MatchKind)| p.0) == literal_part(defs)
    &&& patterns.len() == literals.len()
    &&& forall|i: int|
        0 <= i < literals.len() ==> (#[trigger] patterns[i])@ == literals[i].0.pattern@
    &&& forall|i: int| 0 <= i < literals.len() ==> (#[trigger] literals[i]).1 == literals[i].0.match_kind
}

impl RuleSet {
    /// Compile definitions. Refused, in definition order: an empty pattern
    /// ("规则 pattern 不能为空"), then a regex that does not compile (the message
    /// names the pattern and the compile error); finally, an automaton that
    /// cannot be built for the literal patterns.
    pub fn from_defs(defs: Vec<RuleDef>) -> (r: Result<RuleSet, String>)
        ensures
            (forall|k: int| 0 <= k < defs@.len() ==> !def_rejected(#[trigger] defs@[k])) ==> (
            r is Ok <==> ac_builds(pattern_bytes(literal_part(defs@)))),
            r matches Ok(rs) ==> {
                &&& forall|k: int| 0 <= k < defs@.len() ==> !def_rejected(#[trigger] defs@[k])
                &&& rs.literal_defs() == literal_part(defs@)
                &&& rs.regex_defs() == regex_part(defs@)
            },
            r matches Err(m) ==> {
                ||| (forall|k: int| 0 <= k < defs@.len() ==> !def_rejected(#[trigger] defs@[k]))
                    && exists|t: Seq<char>| m@ == "字面量自动机构建失败："@ + t
                ||| exists|k: int|
                    0 <= k < defs@.len() && def_rejected(#[trigger] defs@[k]) && (forall|j: int|
                        0 <= j < k ==> !def_rejected(#[trigger] defs@[j])) && (if defs@[k].pattern@.len()
                        == 0 {
                        m@ == "规则 pattern 不能为空"@
                    } else {
                        exists|t: Seq<char>| m@ == "正则非法「"@ + defs@[k].pattern@ + "」："@ + t
                    })
            },
    {
        let ghost all = defs@;
        let mut literals: Vec<(RuleDef, MatchKind)> = Vec::new();
        let mut patterns: Vec<String> = Vec::new();
        let mut regexes: Vec<RuleDef> = Vec::new();
        assert(literals@.map_values(|p: (RuleDef, MatchKind)| p.0) =~= literal_part(
            all.subrange(0, 0),
        ));
        assert(regexes@ =~= regex_part(all.subrange(0, 0)));
        for d in it: defs.into_iter()
            invariant
                it.seq() == all,
                literal_state(literals@, patterns@, all.subrange(0, it.index() as int)),
                regexes@ == regex_part(all.subrange(0, it.index() as int)),
                forall|j: int| 0 <= j < it.index() ==> !def_rejected(#[trigger] all[j]),
        {
            let ghost i = it.index();
            assert(all.subrange(0, i + 1).drop_last() =~= all.subrange(0, i as int));
            assert(all.subrange(0, i + 1).last() == all[i as int]);
            assert(d == all[i as int]);
            if d.pattern.as_str().is_empty() {
                return Err(String::from_str("规则 pattern 不能为空"));
            }
            match d.match_kind {
                MatchKind::Regex => {
                    match regex_new(d.pattern.as_str()) {
                        Ok(_) => {
                            regexes.push(d);
                            assert(regexes@ =~= regex_part(all.subrange(0, i + 1)));
                        },
                        Err(e) => {
                            let detail = regex_error_text(&e);
                            let mut m = String::from_str("正则非法「");
                            m.append(d.pattern.as_str());
                            m.append("」：");
                            m.append(detail.as_str());
                            return Err(m);
                        },
                    }
                },
                _ => {
                    let kind = d.match_kind;
                    patterns.push(d.pattern.clone());
                    literals.push((d, kind));
                    assert(literals@.map_values(|p: (RuleDef, MatchKind)| p.0) =~= literal_part(
                        all.subrange(0, i as int),
                    ).push(all[i as int]));
                    assert(regexes@ =~= regex_part(all.subrange(0, i + 1)));
                },
            }
        }
        assert(all.subrange(0, all.len() as int) =~= all);
        assert(bytes_of_all(patterns@) =~= pattern_bytes(literal_part(all)));
        match ac_new(&patterns) {
            Ok(ac) => {
                let rs = RuleSet { literal_ac: ac, literals, regexes };
                Ok(rs)
            },
            Err(e) => {
                let detail = ac_error_text(&e);
                let mut m = String::from_str("字面量自动机构建失败：");
                m.append(detail.as_str());
                Err(m)
            },
        }
    }
}

/// Whether a byte is part of a Latin word (ASCII letter, digit or underscore).
fn is_word_byte_exec(b: u8) -> (r: bool)
    ensures
        r == is_word_byte(b),
{
    (0x30 <= b && b <= 0x39) || (0x41 <= b && b <= 0x5A) || (0x61 <= b && b <= 0x7A) || b == 0x5F
}

/// Word boundary test on byte offsets: Latin letters/digits/underscore may not
/// touch the match on either side; CJK text has no boundary requirement.
fn word_bounded(text: &str, start: usize, end: usize) -> (r: bool)
    ensures
        r == spec_word_bounded(text.spec_bytes(), start as int, end as int),
{
    let bytes = text.as_bytes();
    let n = bytes.len();
    let before_ok = start == 0 || start - 1 >= n || !is_word_byte_exec(bytes[start - 1]);
    let after_ok = end >= n || !is_word_byte_exec(bytes[end]);
    before_ok && after_ok
}

/// Whether the rule applies to the scenario (`all` or the scenario's id).
fn applies(def: &RuleDef, scenario: &str) -> (r: bool)
    ensures
        r == spec_applies(*def, scenario@),
{
    let mut i: usize = 0;
    while i < def.applies_to.len()
        invariant
            i <= def.applies_to@.len(),
            forall|j: int|
                0 <= j < i ==> !(#[trigger] def.applies_to@[j]@ == "all"@
                    || def.applies_to@[j]@ == scenario@),
        decreases def.applies_to@.len() - i,
    {
        let a = def.applies_to[i].as_str();
        if str_eq(a, "all") || str_eq(a, scenario) {
            return true;
        }
        i = i + 1;
    }
    false
}

impl RuleSet {
    /// No rule at all.
    pub fn is_empty(&self) -> (b: bool)
        ensures
            b <==> self.literal_defs().len() == 0 && self.regex_defs().len() == 0,
    {
        self.literals.len() == 0 && self.regexes.len() == 0
    }

    /// The first rule that hits `text` in scenario `scenario` (a hit means Block):
    /// literal matches in scan order first, then regex rules in order.
    pub fn first_hit(&self, text: &str, scenario: &str) -> (r: Option<RuleHit>)
        ensures
            (match r {
                Some(h) => Some(h.pattern@),
                None => None,
            }) == spec_first_hit(self.literal_defs(), self.regex_defs(), text@, scenario@),
            r matches Some(h) ==> hit_justified(
                self.literal_defs(),
                self.regex_defs(),
                h.pattern@,
                text@,
                scenario@,
            ),
    {
        proof {
            use_type_invariant(self);
        }
        if text.is_empty() {
            return None;
        }
        let ghost lits = self.literal_defs();
        let ghost bytes = text.spec_bytes();
        let ghost ms = ac_matches(pattern_bytes(lits), bytes);
        let matches = ac_find_all(&self.literal_ac, text);
        let mut k: usize = 0;
        while k < matches.len()
            invariant
                0 <= k <= matches@.len(),
                text@.len() != 0,
                matches@.len() == ms.len(),
                lits == self.literal_defs(),
                lits.len() == self.literals@.len(),
                ac_patterns(self.literal_ac) == pattern_bytes(lits),
                ms == ac_matches(pattern_bytes(lits), bytes),
                bytes == text.spec_bytes(),
                forall|i: int|
                    0 <= i < matches@.len() ==> {
                        let m = #[trigger] matches@[i];
                        &&& m.0 as int == ms[i].0
                        &&& m.1 as int == ms[i].1
                        &&& m.2 as int == ms[i].2
                        &&& m.0 < lits.len()
                        &&& m.1 <= m.2 <= bytes.len()
                        &&& bytes.subrange(m.1 as int, m.2 as int) == pattern_bytes(lits)[m.0 as int]
                    },
                forall|i: int|
                    0 <= i < self.literals@.len() ==> (#[trigger] self.literals@[i]).1
                        == self.literals@[i].0.match_kind,
                first_literal_hit(lits, ms, 0, bytes, scenario@) == first_literal_hit(
                    lits,
                    ms,
                    k as int,
                    bytes,
                    scenario@,
                ),
            decreases matches@.len() - k,
        {
            let (pid, start, end) = matches[k];
            let entry = &self.literals[pid];
            assert(lits[pid as int] == entry.0);
            if applies(&entry.0, scenario) {
                let matched = match entry.1 {
                    MatchKind::Word => word_bounded(text, start, end),
                    _ => true,
                };
                if matched {
                    let hit = RuleHit { pattern: entry.0.pattern.clone() };
                    proof {
                        let p = lits[pid as int].pattern@;
                        assert(pattern_bytes(lits)[pid as int] == encode_utf8(p));
                        assert(bytes.subrange(start as int, end as int) == encode_utf8(p));
                        assert(encode_utf8(text@).subrange(
                            start as int,
                            start + encode_utf8(p).len(),
                        ) == encode_utf8(p));
                    }
                    return Some(hit);
                }
            }
            k = k + 1;
        }
        let mut j: usize = 0;
        while j < self.regexes.len()
            invariant
                0 <= j <= self.regexes@.len(),
                text@.len() != 0,
                first_literal_hit(lits, ms, 0, bytes, scenario@) is None,
                ms == ac_matches(pattern_bytes(lits), bytes),
                bytes == text.spec_bytes(),
                lits == self.literal_defs(),
                first_regex_hit(self.regex_defs(), 0, text@, scenario@) == first_regex_hit(
                    self.regex_defs(),
                    j as int,
                    text@,
                    scenario@,
                ),
            decreases self.regexes@.len() - j,
        {
            let def = &self.regexes[j];
            if applies(def, scenario) {
                match regex_new(def.pattern.as_str()) {
                    Ok(re) => {
                        if regex_match(&re, text) {
                            let hit = RuleHit { pattern: def.pattern.clone() };
                            assert(self.regex_defs()[j as int] == *def);
                            return Some(hit);
                        }
                    },
                    Err(_) => {},
                }
            }
            j = j + 1;
        }
        None
    }
}

} // verus!
