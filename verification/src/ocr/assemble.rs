//! Assembly of recognised lines: line joining, noise filtering and field
//! extraction.
//!
//! The input is what the recognition engine reports for each line (text,
//! confidence, bounding box); the output is the draft text, the chat target
//! and the recent conversation excerpt.

use vstd::prelude::*;
use vstd::string::*;

use crate::contract::{OcrResult, TextBlock};
use crate::ieee::{bits_ge, bits_gt, ge, gt};
use crate::sys_api::Rect;
use crate::text::{str_eq, string_views, trim, trim_spec};

verus! {

/// One recognised line (engine output, assembly input).
#[derive(Debug, Clone, PartialEq)]
pub struct RawLine {
    pub text: String,
    /// Recognition confidence (single-precision bit pattern).
    pub score_bits: u32,
    /// Bounding box, in coordinates local to the region read.
    pub rect: Rect,
}

/// Vertical centre of a box.
pub open spec fn centre_y(r: Rect) -> int {
    r.y as int + (r.h / 2) as int
}

/// `a` sits strictly earlier in reading position than `b`: higher centre
/// line, or the same centre line and further left.
pub open spec fn box_before(a: Rect, b: Rect) -> bool {
    centre_y(a) < centre_y(b) || (centre_y(a) == centre_y(b) && a.x < b.x)
}

/// Line `i` is read before line `j`; lines at the same position keep their
/// input order.
pub open spec fn reads_before(lines: Seq<RawLine>, i: int, j: int) -> bool {
    box_before(lines[i].rect, lines[j].rect) || (!box_before(lines[j].rect, lines[i].rect) && i
        < j)
}

/// `p` lists the first `n` lines, each once, in reading order.
pub open spec fn orders_first(lines: Seq<RawLine>, p: Seq<usize>, n: int) -> bool {
    &&& p.len() == n
    &&& forall|k: int| 0 <= k < p.len() ==> #[trigger] p[k] < n
    &&& forall|a: int, b: int|
        0 <= a < b < p.len() ==> reads_before(lines, #[trigger] p[a] as int, #[trigger] p[b] as int)
}

/// `p` lists every line once, top to bottom and left to right (a stable sort
/// by centre line, then left edge).
pub open spec fn reading_order(lines: Seq<RawLine>, p: Seq<usize>) -> bool {
    orders_first(lines, p, lines.len() as int)
}

/// Every line occurs in a reading order.
proof fn lemma_order_covers(lines: Seq<RawLine>, p: Seq<usize>, i: int)
    requires
        reading_order(lines, p),
        0 <= i < lines.len(),
    ensures
        exists|k: int| 0 <= k < p.len() && p[k] == i,
{
    let n = lines.len() as int;
    let ps = p.map_values(|v: usize| v as int);
    assert(ps.no_duplicates()) by {
        assert forall|a: int, b: int| 0 <= a < ps.len() && 0 <= b < ps.len() && a != b implies ps[a]
            != ps[b] by {
            if a < b {
                assert(reads_before(lines, p[a] as int, p[b] as int));
            } else {
                assert(reads_before(lines, p[b] as int, p[a] as int));
            }
        }
    }
    ps.unique_seq_to_set();
    let range = vstd::set_lib::set_int_range(0, n);
    vstd::set_lib::lemma_int_range(0, n);
    assert(ps.to_set().subset_of(range)) by {
        assert forall|x: int| ps.to_set().contains(x) implies range.contains(x) by {
            let k = choose|k: int| 0 <= k < ps.len() && ps[k] == x;
            assert(p[k] < n);
        }
    }
    vstd::set_lib::lemma_subset_equality(ps.to_set(), range);
    assert(range.contains(i));
    assert(ps.to_set().contains(i));
    let k = choose|k: int| 0 <= k < ps.len() && ps[k] == i;
    assert(p[k] == i);
}

proof fn lemma_prefix_agrees(lines: Seq<RawLine>, p: Seq<usize>, q: Seq<usize>, k: int)
    requires
        reading_order(lines, p),
        reading_order(lines, q),
        0 <= k <= lines.len(),
    ensures
        forall|j: int| 0 <= j < k ==> p[j] == q[j],
    decreases k,
{
    if k > 0 {
        let c = k - 1;
        lemma_prefix_agrees(lines, p, q, c);
        lemma_order_covers(lines, q, p[c] as int);
        lemma_order_covers(lines, p, q[c] as int);
        let m = choose|m: int| 0 <= m < q.len() && q[m] == p[c];
        let m2 = choose|m2: int| 0 <= m2 < p.len() && p[m2] == q[c];
        if m < c {
            assert(p[m] == q[m]);
            assert(reads_before(lines, p[m] as int, p[c] as int));
        }
        if m2 < c {
            assert(p[m2] == q[m2]);
            assert(reads_before(lines, q[m2] as int, q[c] as int));
        }
        if m > c && m2 > c {
            assert(reads_before(lines, q[c] as int, q[m] as int));
            assert(reads_before(lines, p[c] as int, p[m2] as int));
        }
        if m2 == c {
            assert(p[c] == q[c]);
        }
        if m == c {
            assert(p[c] == q[c]);
        }
    }
}

/// There is only one reading order: the texts assembled along it are fully
/// determined by the lines.
pub proof fn lemma_reading_order_unique(lines: Seq<RawLine>, p: Seq<usize>, q: Seq<usize>)
    requires
        reading_order(lines, p),
        reading_order(lines, q),
    ensures
        p == q,
{
    lemma_prefix_agrees(lines, p, q, lines.len() as int);
    assert(p =~= q);
}

/// Inserting line `n` where it belongs keeps the prefix ordered.
proof fn lemma_insert_in_order(lines: Seq<RawLine>, p: Seq<usize>, n: usize, pos: int)
    requires
        orders_first(lines, p, n as int),
        n < lines.len(),
        0 <= pos <= p.len(),
        forall|k: int| 0 <= k < pos ==> reads_before(lines, #[trigger] p[k] as int, n as int),
        forall|k: int| pos <= k < p.len() ==> reads_before(lines, n as int, #[trigger] p[k] as int),
    ensures
        orders_first(lines, p.insert(pos, n), n + 1),
{
    let q = p.insert(pos, n);
    assert forall|k: int| 0 <= k < q.len() implies #[trigger] q[k] < n + 1 by {
        if k < pos {
            assert(q[k] == p[k]);
        } else if k > pos {
            assert(q[k] == p[k - 1]);
        }
    }
    assert forall|a: int, b: int| 0 <= a < b < q.len() implies reads_before(
        lines,
        #[trigger] q[a] as int,
        #[trigger] q[b] as int,
    ) by {
        if a < pos {
            assert(q[a] == p[a]);
            if b < pos {
                assert(q[b] == p[b]);
            } else if b > pos {
                assert(q[b] == p[b - 1]);
                assert(reads_before(lines, p[a] as int, p[b - 1] as int));
            }
        } else if a == pos {
            assert(q[b] == p[b - 1]);
        } else {
            assert(q[a] == p[a - 1]);
            assert(q[b] == p[b - 1]);
            assert(reads_before(lines, p[a - 1] as int, p[b - 1] as int));
        }
    }
}

fn centre_of(r: Rect) -> (c: i64)
    ensures
        c == centre_y(r),
{
    r.y as i64 + (r.h / 2) as i64
}

fn box_before_exec(a: Rect, b: Rect) -> (r: bool)
    ensures
        r == box_before(a, b),
{
    let ca = centre_of(a);
    let cb = centre_of(b);
    ca < cb || (ca == cb && a.x < b.x)
}

/// Indices of the lines in reading order (insertion sort; ties keep input order).
fn reading_order_of(lines: &[RawLine]) -> (p: Vec<usize>)
    ensures
        reading_order(lines@, p@),
{
    let mut order: Vec<usize> = Vec::new();
    let mut i: usize = 0;
    while i < lines.len()
        invariant
            i <= lines@.len(),
            orders_first(lines@, order@, i as int),
        decreases lines@.len() - i,
    {
        let mut pos: usize = 0;
        while pos < order.len() && !box_before_exec(lines[i].rect, lines[order[pos]].rect)
            invariant
                i < lines@.len(),
                orders_first(lines@, order@, i as int),
                pos <= order@.len(),
                forall|k: int| 0 <= k < pos ==> reads_before(lines@, #[trigger] order@[k] as int, i as int),
            decreases order@.len() - pos,
        {
            assert(order@[pos as int] < i);
            pos = pos + 1;
        }
        proof {
            assert forall|k: int| pos <= k < order@.len() implies reads_before(
                lines@,
                i as int,
                #[trigger] order@[k] as int,
            ) by {
                assert(box_before(lines@[i as int].rect, lines@[order@[pos as int] as int].rect));
                if k > pos {
                    assert(reads_before(lines@, order@[pos as int] as int, order@[k] as int));
                }
            }
            lemma_insert_in_order(lines@, order@, i, pos as int);
        }
        order.insert(pos, i);
        i = i + 1;
    }
    order
}

/// A line's text counts when, trimmed, it is not empty and, given a floor,
/// its confidence reaches the floor.
pub open spec fn line_counts(l: RawLine, floor: Option<u32>) -> bool {
    &&& trim_spec(l.text@).len() > 0
    &&& match floor {
        Some(m) => bits_ge(l.score_bits, m),
        None => true,
    }
}

/// The trimmed texts that count, in the order `p`.
pub open spec fn texts_in_order(lines: Seq<RawLine>, p: Seq<usize>, floor: Option<u32>) -> Seq<
    Seq<char>,
>
    decreases p.len(),
{
    if p.len() == 0 {
        Seq::empty()
    } else {
        let rest = texts_in_order(lines, p.drop_last(), floor);
        let l = lines[p.last() as int];
        if line_counts(l, floor) {
            rest.push(trim_spec(l.text@))
        } else {
            rest
        }
    }
}

/// Texts joined with line feeds (none after the last).
pub open spec fn join_lines(s: Seq<Seq<char>>) -> Seq<char>
    decreases s.len(),
{
    if s.len() == 0 {
        Seq::empty()
    } else if s.len() == 1 {
        s[0]
    } else {
        join_lines(s.drop_last()) + seq!['\n'] + s.last()
    }
}

fn collect_texts(lines: &[RawLine], order: &Vec<usize>, floor: Option<u32>) -> (v: Vec<String>)
    requires
        forall|k: int| 0 <= k < order@.len() ==> #[trigger] order@[k] < lines@.len(),
    ensures
        string_views(v@) == texts_in_order(lines@, order@, floor),
{
    let mut v: Vec<String> = Vec::new();
    let mut k: usize = 0;
    while k < order.len()
        invariant
            k <= order@.len(),
            forall|j: int| 0 <= j < order@.len() ==> #[trigger] order@[j] < lines@.len(),
            string_views(v@) == texts_in_order(lines@, order@.subrange(0, k as int), floor),
        decreases order@.len() - k,
    {
        let ghost pre = string_views(v@);
        assert(order@.subrange(0, k + 1).drop_last() =~= order@.subrange(0, k as int));
        let l = &lines[order[k]];
        let t = trim(l.text.as_str());
        let counts = !t.is_empty() && match floor {
            Some(m) => ge(l.score_bits, m),
            None => true,
        };
        if counts {
            v.push(String::from_str(t));
            assert(string_views(v@) =~= pre.push(t@));
        }
        k = k + 1;
    }
    assert(order@.subrange(0, order@.len() as int) =~= order@);
    v
}

/// Join `v[from..]` with line feeds.
fn join_from(v: &Vec<String>, from: usize) -> (s: String)
    requires
        from <= v@.len(),
    ensures
        s@ == join_lines(string_views(v@).subrange(from as int, v@.len() as int)),
{
    proof {
        reveal_strlit("\n");
    }
    let ghost sv = string_views(v@);
    let mut acc = String::new();
    assert(sv.subrange(from as int, from as int) =~= Seq::<Seq<char>>::empty());
    let mut i: usize = from;
    while i < v.len()
        invariant
            from <= i <= v@.len(),
            sv == string_views(v@),
            "\n"@ == seq!['\n'],
            acc@ == join_lines(sv.subrange(from as int, i as int)),
        decreases v@.len() - i,
    {
        let ghost sub = sv.subrange(from as int, i + 1);
        assert(sub.drop_last() =~= sv.subrange(from as int, i as int));
        assert(sub.last() == v@[i as int]@);
        if i > from {
            acc.append("\n");
        } else {
            assert(sub =~= seq![v@[i as int]@]);
        }
        acc.append(v[i].as_str());
        i = i + 1;
    }
    acc
}

/// Draft text: the trimmed, non-empty line texts in reading order, joined
/// with line feeds (none after the last).
pub fn join_draft(lines: &[RawLine]) -> (s: String)
    ensures
        exists|p: Seq<usize>|
            reading_order(lines@, p) && s@ == join_lines(#[trigger] texts_in_order(lines@, p, None)),
{
    let order = reading_order_of(lines);
    let texts = collect_texts(lines, &order, None);
    let s = join_from(&texts, 0);
    assert(string_views(texts@).subrange(0, texts@.len() as int) =~= string_views(texts@));
    assert(reading_order(lines@, order@) && s@ == join_lines(texts_in_order(lines@, order@, None)));
    s
}

/// Recent conversation excerpt: in reading order, the texts of the lines
/// that reach the confidence floor and are not blank; the last `max_lines`
/// of them, joined with line feeds. `None` when nothing is left.
pub fn extract_chat_context(lines: &[RawLine], min_conf_bits: u32, max_lines: usize) -> (r: Option<
    String,
>)
    ensures
        exists|p: Seq<usize>|
            reading_order(lines@, p) && {
                let q = #[trigger] texts_in_order(lines@, p, Some(min_conf_bits));
                let k = if max_lines < q.len() {
                    max_lines as int
                } else {
                    q.len() as int
                };
                if k == 0 {
                    r is None
                } else {
                    r matches Some(s) && s@ == join_lines(q.subrange(q.len() - k, q.len() as int))
                }
            },
{
    let order = reading_order_of(lines);
    let texts = collect_texts(lines, &order, Some(min_conf_bits));
    let n = texts.len();
    let k = if max_lines < n {
        max_lines
    } else {
        n
    };
    let r = if k == 0 {
        None
    } else {
        Some(join_from(&texts, n - k))
    };
    assert(reading_order(lines@, order@));
    r
}

/// The text is one of the noise words (send buttons and the like).
pub open spec fn is_noise(noise: Seq<String>, t: Seq<char>) -> bool {
    exists|w: int| 0 <= w < noise.len() && (#[trigger] noise[w])@ == t
}

/// A line survives filtering: confident enough, not blank, and not a noise
/// word once trimmed. Short lines are kept: short sensitive words must reach
/// the rules.
pub open spec fn line_kept(l: RawLine, noise: Seq<String>, min_conf_bits: u32) -> bool {
    &&& bits_ge(l.score_bits, min_conf_bits)
    &&& trim_spec(l.text@).len() > 0
    &&& !is_noise(noise, trim_spec(l.text@))
}

/// The lines that survive filtering, in order.
pub open spec fn kept_lines(lines: Seq<RawLine>, noise: Seq<String>, min_conf_bits: u32) -> Seq<
    RawLine,
>
    decreases lines.len(),
{
    if lines.len() == 0 {
        lines
    } else {
        let rest = kept_lines(lines.drop_last(), noise, min_conf_bits);
        if line_kept(lines.last(), noise, min_conf_bits) {
            rest.push(lines.last())
        } else {
            rest
        }
    }
}

fn is_noise_word(noise: &[String], t: &str) -> (b: bool)
    ensures
        b == is_noise(noise@, t@),
{
    let mut i: usize = 0;
    while i < noise.len()
        invariant
            i <= noise@.len(),
            forall|j: int| 0 <= j < i ==> (#[trigger] noise@[j])@ != t@,
        decreases noise@.len() - i,
    {
        if str_eq(noise[i].as_str(), t) {
            assert(noise@[i as int]@ == t@);
            return true;
        }
        i = i + 1;
    }
    false
}

/// Filtering: lines below the confidence floor, blank lines and lines that
/// are exactly a noise word (after trimming) are dropped; the rest keep
/// their order.
pub fn filter_lines(lines: Vec<RawLine>, noise_words: &[String], min_conf_bits: u32) -> (r: Vec<
    RawLine,
>)
    ensures
        r@ == kept_lines(lines@, noise_words@, min_conf_bits),
{
    let ghost all = lines@;
    let mut out: Vec<RawLine> = Vec::new();
    for l in it: lines.into_iter()
        invariant
            it.seq() == all,
            out@ == kept_lines(all.subrange(0, it.index() as int), noise_words@, min_conf_bits),
    {
        let ghost i = it.index();
        assert(all.subrange(0, i + 1).drop_last() =~= all.subrange(0, i as int));
        assert(l == all[i as int]);
        let t = trim(l.text.as_str());
        let keep = ge(l.score_bits, min_conf_bits) && !t.is_empty() && !is_noise_word(
            noise_words,
            t,
        );
        if keep {
            out.push(l);
        }
    }
    assert(all.subrange(0, all.len() as int) =~= all);
    out
}

/// The OCR result of the input box: the filtered lines become the text
/// blocks, in order, and their texts in reading order the draft. Target and
/// context are left for the caller (the fast loop reuses the slow loop's).
pub fn assemble(blocks: Vec<RawLine>, noise_words: &[String], min_conf_bits: u32) -> (r: OcrResult)
    ensures
        ({
            let f = kept_lines(blocks@, noise_words@, min_conf_bits);
            &&& r.chat_target is None
            &&& r.chat_context is None
            &&& r.blocks@.len() == f.len()
            &&& forall|i: int|
                0 <= i < f.len() ==> {
                    &&& (#[trigger] r.blocks@[i]).text == f[i].text
                    &&& r.blocks@[i].rect == f[i].rect
                    &&& r.blocks@[i].confidence_bits == f[i].score_bits
                }
            &&& exists|p: Seq<usize>|
                reading_order(f, p) && r.draft_text@ == join_lines(
                    #[trigger] texts_in_order(f, p, None),
                )
        }),
{
    let filtered = filter_lines(blocks, noise_words, min_conf_bits);
    let draft_text = join_draft(filtered.as_slice());
    let ghost f = filtered@;
    let mut out: Vec<TextBlock> = Vec::new();
    for l in it: filtered.into_iter()
        invariant
            it.seq() == f,
            out@.len() == it.index(),
            forall|i: int|
                0 <= i < it.index() ==> {
                    &&& (#[trigger] out@[i]).text == f[i].text
                    &&& out@[i].rect == f[i].rect
                    &&& out@[i].confidence_bits == f[i].score_bits
                },
    {
        assert(l == f[it.index() as int]);
        out.push(TextBlock { text: l.text, rect: l.rect, confidence_bits: l.score_bits });
    }
    OcrResult { chat_target: None, draft_text, blocks: out, chat_context: None }
}

/// A candidate for the chat target: confident enough and not blank.
pub open spec fn target_candidate(l: RawLine, min_conf_bits: u32) -> bool {
    bits_ge(l.score_bits, min_conf_bits) && trim_spec(l.text@).len() > 0
}

/// Line `i` is the most confident candidate, the last one among equals.
pub open spec fn best_target(lines: Seq<RawLine>, min_conf_bits: u32, i: int) -> bool {
    &&& 0 <= i < lines.len()
    &&& target_candidate(lines[i], min_conf_bits)
    &&& forall|j: int|
        0 <= j < lines.len() && #[trigger] target_candidate(lines[j], min_conf_bits) ==> !bits_gt(
            lines[j].score_bits,
            lines[i].score_bits,
        )
    &&& forall|j: int|
        i < j < lines.len() && #[trigger] target_candidate(lines[j], min_conf_bits) ==> bits_gt(
            lines[i].score_bits,
            lines[j].score_bits,
        )
}

/// Chat target: the trimmed text of the most confident candidate line (the
/// last one among equally confident ones); `None` without candidates.
pub fn pick_chat_target(lines: &[RawLine], min_conf_bits: u32) -> (r: Option<String>)
    ensures
        r is None <==> forall|j: int|
            0 <= j < lines@.len() ==> !#[trigger] target_candidate(lines@[j], min_conf_bits),
        r matches Some(s) ==> exists|i: int|
            best_target(lines@, min_conf_bits, i) && s@ == trim_spec(#[trigger] lines@[i].text@),
{
    let mut best: Option<usize> = None;
    let mut j: usize = 0;
    while j < lines.len()
        invariant
            j <= lines@.len(),
            best is None ==> forall|k: int|
                0 <= k < j ==> !#[trigger] target_candidate(lines@[k], min_conf_bits),
            best matches Some(b) ==> {
                &&& b < j
                &&& target_candidate(lines@[b as int], min_conf_bits)
                &&& forall|k: int|
                    0 <= k < j && #[trigger] target_candidate(lines@[k], min_conf_bits) ==> !bits_gt(
                        lines@[k].score_bits,
                        lines@[b as int].score_bits,
                    )
                &&& forall|k: int|
                    b < k < j && #[trigger] target_candidate(lines@[k], min_conf_bits) ==> bits_gt(
                        lines@[b as int].score_bits,
                        lines@[k].score_bits,
                    )
            },
        decreases lines@.len() - j,
    {
        let l = &lines[j];
        if ge(l.score_bits, min_conf_bits) && !trim(l.text.as_str()).is_empty() {
            match best {
                None => {
                    best = Some(j);
                },
                Some(b) => {
                    if !gt(lines[b].score_bits, l.score_bits) {
                        best = Some(j);
                    }
                },
            }
        }
        j = j + 1;
    }
    match best {
        None => None,
        Some(b) => {
            assert(best_target(lines@, min_conf_bits, b as int));
            Some(String::from_str(trim(lines[b].text.as_str())))
        },
    }
}

} // verus!
