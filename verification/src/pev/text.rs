//! Cleaning of model responses before they are parsed as JSON.
//!
//! Models sometimes wrap JSON in Markdown code fences. A response is cleaned
//! as the Plan and Verify phases do it: trim surrounding whitespace, strip
//! every leading "```json", then every leading "```", then every trailing
//! "```", and trim again. Whitespace is Unicode `White_Space`, as for
//! `char::is_whitespace`.
use vstd::prelude::*;

verus! {

/// Unicode `White_Space`: U+0009–U+000D, U+0020, U+0085, U+00A0, U+1680,
/// U+2000–U+200A, U+2028, U+2029, U+202F, U+205F and U+3000.
pub open spec fn is_whitespace(c: char) -> bool {
    let u = c as u32;
    ||| 0x9 <= u <= 0xD
    ||| u == 0x20
    ||| u == 0x85
    ||| u == 0xA0
    ||| u == 0x1680
    ||| 0x2000 <= u <= 0x200A
    ||| u == 0x2028
    ||| u == 0x2029
    ||| u == 0x202F
    ||| u == 0x205F
    ||| u == 0x3000
}

/// `s` without its leading whitespace.
pub open spec fn trim_start(s: Seq<char>) -> Seq<char>
    decreases s.len(),
{
    if s.len() > 0 && is_whitespace(s[0]) {
        trim_start(s.drop_first())
    } else {
        s
    }
}

/// `s` without its trailing whitespace.
pub open spec fn trim_end(s: Seq<char>) -> Seq<char>
    decreases s.len(),
{
    if s.len() > 0 && is_whitespace(s.last()) {
        trim_end(s.drop_last())
    } else {
        s
    }
}

/// `s` without leading and trailing whitespace.
pub open spec fn trim(s: Seq<char>) -> Seq<char> {
    trim_end(trim_start(s))
}

/// `s` with every leading repetition of the non-empty pattern `p` removed.
pub open spec fn strip_prefixes(s: Seq<char>, p: Seq<char>) -> Seq<char>
    decreases s.len(),
{
    if 0 < p.len() <= s.len() && s.take(p.len() as int) == p {
        strip_prefixes(s.skip(p.len() as int), p)
    } else {
        s
    }
}

/// `s` with every trailing repetition of the non-empty pattern `p` removed.
pub open spec fn strip_suffixes(s: Seq<char>, p: Seq<char>) -> Seq<char>
    decreases s.len(),
{
    if 0 < p.len() <= s.len() && s.skip(s.len() - p.len()) == p {
        strip_suffixes(s.take(s.len() - p.len()), p)
    } else {
        s
    }
}

/// The opening fence of a JSON code block.
pub open spec fn json_fence() -> Seq<char> {
    seq!['`', '`', '`', 'j', 's', 'o', 'n']
}

/// A bare code fence.
pub open spec fn fence() -> Seq<char> {
    seq!['`', '`', '`']
}

/// A model response with whitespace and code fences removed.
pub open spec fn clean_response(s: Seq<char>) -> Seq<char> {
    trim(strip_suffixes(strip_prefixes(strip_prefixes(trim(s), json_fence()), fence()), fence()))
}

/// Leading non-whitespace stops `trim_start`.
proof fn lemma_trim_start_stops(s: Seq<char>)
    requires
        s.len() == 0 || !is_whitespace(s[0]),
    ensures
        trim_start(s) == s,
{
}

/// Trailing non-whitespace stops `trim_end`.
proof fn lemma_trim_end_stops(s: Seq<char>)
    requires
        s.len() == 0 || !is_whitespace(s.last()),
    ensures
        trim_end(s) == s,
{
}

/// `trim_start` leaves no whitespace in front.
proof fn lemma_trim_start_first(s: Seq<char>)
    ensures
        trim_start(s).len() > 0 ==> !is_whitespace(trim_start(s)[0]),
    decreases s.len(),
{
    if s.len() > 0 && is_whitespace(s[0]) {
        lemma_trim_start_first(s.drop_first());
    }
}

/// `trim_end` leaves no whitespace behind, and keeps a prefix of its input.
proof fn lemma_trim_end_last(s: Seq<char>)
    ensures
        trim_end(s).len() > 0 ==> !is_whitespace(trim_end(s).last()),
        trim_end(s).len() <= s.len(),
        trim_end(s) == s.take(trim_end(s).len() as int),
    decreases s.len(),
{
    if s.len() > 0 && is_whitespace(s.last()) {
        lemma_trim_end_last(s.drop_last());
        assert(s.drop_last().take(trim_end(s).len() as int) =~= s.take(trim_end(s).len() as int));
    } else {
        assert(s.take(s.len() as int) =~= s);
    }
}

/// A trimmed text has no whitespace at either end.
pub proof fn lemma_trim_no_edge_whitespace(s: Seq<char>)
    ensures
        trim(s).len() > 0 ==> !is_whitespace(trim(s)[0]) && !is_whitespace(trim(s).last()),
{
    let t = trim_start(s);
    lemma_trim_start_first(s);
    lemma_trim_end_last(t);
    if trim(s).len() > 0 {
        assert(trim(s)[0] == t.take(trim(s).len() as int)[0]);
    }
}

/// A cleaned response has no whitespace at either end.
pub proof fn lemma_cleaned_has_no_edge_whitespace(s: Seq<char>)
    ensures
        clean_response(s).len() > 0 ==> !is_whitespace(clean_response(s)[0]) && !is_whitespace(
            clean_response(s).last(),
        ),
{
    lemma_trim_no_edge_whitespace(
        strip_suffixes(strip_prefixes(strip_prefixes(trim(s), json_fence()), fence()), fence()),
    );
}

/// Bare text, with no whitespace and no code fence at either end, is left
/// unchanged by cleaning.
proof fn lemma_clean_keeps_trimmed_text(s: Seq<char>)
    requires
        s.len() == 0 || (!is_whitespace(s[0]) && !is_whitespace(s.last())),
        s.len() < 3 || s.take(3) != fence(),
        s.len() < 3 || s.skip(s.len() - 3) != fence(),
    ensures
        clean_response(s) == s,
{
    lemma_trim_start_stops(s);
    lemma_trim_end_stops(s);
    if 7 <= s.len() && s.take(7) == json_fence() {
        assert(s.take(3) =~= s.take(7).take(3));
        assert(json_fence().take(3) =~= fence());
    }
    assert(strip_prefixes(s, json_fence()) == s);
    assert(strip_prefixes(s, fence()) == s);
    assert(strip_suffixes(s, fence()) == s);
}

/// A code block with nothing around it is cleaned to its trimmed body.
proof fn lemma_clean_unwraps_bare_code_block(body: Seq<char>)
    ensures
        clean_response(json_fence() + seq!['\n'] + body + seq!['\n'] + fence()) == trim(body),
{
    let nl = seq!['\n'];
    let s = json_fence() + nl + body + nl + fence();
    assert(s[0] == '`');
    assert(s.last() == '`');
    lemma_trim_start_stops(s);
    lemma_trim_end_stops(s);
    assert(trim(s) == s);
    // The opening fence is stripped once: what follows starts with a newline.
    let x1 = nl + body + nl + fence();
    assert(s.take(7) =~= json_fence());
    assert(s.skip(7) =~= x1);
    assert(x1[0] == '\n');
    if x1.len() >= 7 {
        assert(x1.take(7)[0] == '\n');
    }
    assert(strip_prefixes(x1, json_fence()) == x1);
    assert(strip_prefixes(s, json_fence()) == x1);
    assert(x1.take(3)[0] == '\n');
    assert(strip_prefixes(x1, fence()) == x1);
    // The closing fence is stripped once: what precedes ends with a newline.
    let x2 = nl + body + nl;
    assert(x1.skip(x1.len() - 3) =~= fence());
    assert(x1.take(x1.len() - 3) =~= x2);
    if x2.len() >= 3 {
        assert(x2.skip(x2.len() - 3)[2] == '\n');
    }
    assert(strip_suffixes(x2, fence()) == x2);
    assert(strip_suffixes(x1, fence()) == x2);
    // Trimming removes the two newlines and the body's own padding.
    assert(is_whitespace('\n'));
    assert(all_whitespace(nl));
    lemma_trim_padded_any(nl, body, nl);
}

/// Every character of `w` is whitespace.
pub open spec fn all_whitespace(w: Seq<char>) -> bool {
    forall|i: int| 0 <= i < w.len() ==> is_whitespace(#[trigger] w[i])
}

/// Leading whitespace does not change `trim_start`.
proof fn lemma_trim_start_skips(w: Seq<char>, x: Seq<char>)
    requires
        all_whitespace(w),
    ensures
        trim_start(w + x) == trim_start(x),
    decreases w.len(),
{
    if w.len() == 0 {
        assert(w + x =~= x);
    } else {
        assert((w + x)[0] == w[0]);
        assert((w + x).drop_first() =~= w.drop_first() + x);
        assert forall|i: int| 0 <= i < w.drop_first().len() implies is_whitespace(
            #[trigger] w.drop_first()[i],
        ) by {
            assert(w.drop_first()[i] == w[i + 1]);
        }
        lemma_trim_start_skips(w.drop_first(), x);
    }
}

/// Trailing whitespace does not change `trim_end`.
proof fn lemma_trim_end_skips(x: Seq<char>, w: Seq<char>)
    requires
        all_whitespace(w),
    ensures
        trim_end(x + w) == trim_end(x),
    decreases w.len(),
{
    if w.len() == 0 {
        assert(x + w =~= x);
    } else {
        assert((x + w).last() == w.last());
        assert((x + w).drop_last() =~= x + w.drop_last());
        assert forall|i: int| 0 <= i < w.drop_last().len() implies is_whitespace(
            #[trigger] w.drop_last()[i],
        ) by {
            assert(w.drop_last()[i] == w[i]);
        }
        lemma_trim_end_skips(x, w.drop_last());
    }
}

/// Text that is not all whitespace keeps what follows it through
/// `trim_start`.
proof fn lemma_trim_start_concat(x: Seq<char>, y: Seq<char>)
    ensures
        trim_start(x).len() > 0 ==> trim_start(x + y) == trim_start(x) + y,
        trim_start(x).len() == 0 ==> trim_start(x + y) == trim_start(y),
    decreases x.len(),
{
    if x.len() == 0 {
        assert(x + y =~= y);
    } else if is_whitespace(x[0]) {
        assert((x + y)[0] == x[0]);
        assert((x + y).drop_first() =~= x.drop_first() + y);
        lemma_trim_start_concat(x.drop_first(), y);
    } else {
        assert((x + y)[0] == x[0]);
    }
}

/// Text that is not all whitespace keeps what precedes it through
/// `trim_end`.
proof fn lemma_trim_end_concat(x: Seq<char>, y: Seq<char>)
    ensures
        trim_end(y).len() > 0 ==> trim_end(x + y) == x + trim_end(y),
    decreases y.len(),
{
    if y.len() == 0 {
    } else if is_whitespace(y.last()) {
        assert((x + y).last() == y.last());
        assert((x + y).drop_last() =~= x + y.drop_last());
        lemma_trim_end_concat(x, y.drop_last());
    } else {
        assert((x + y).last() == y.last());
    }
}

/// Whitespace padding around any text does not change its trim.
proof fn lemma_trim_padded_any(pre: Seq<char>, s: Seq<char>, post: Seq<char>)
    requires
        all_whitespace(pre),
        all_whitespace(post),
    ensures
        trim(pre + s + post) == trim(s),
{
    assert(pre + s + post =~= pre + (s + post));
    lemma_trim_start_skips(pre, s + post);
    lemma_trim_start_concat(s, post);
    if trim_start(s).len() > 0 {
        lemma_trim_end_skips(trim_start(s), post);
    } else {
        assert(post =~= post + Seq::<char>::empty());
        lemma_trim_start_skips(post, Seq::<char>::empty());
        assert(trim_start(post) == trim_start(Seq::<char>::empty()));
        assert(trim_start(s) =~= Seq::<char>::empty());
    }
}

/// Trimming whitespace padding off text that has none at its own ends gives
/// the text.
proof fn lemma_trim_padded(pre: Seq<char>, s: Seq<char>, post: Seq<char>)
    requires
        all_whitespace(pre),
        all_whitespace(post),
        s.len() == 0 || (!is_whitespace(s[0]) && !is_whitespace(s.last())),
    ensures
        trim(pre + s + post) == s,
{
    assert(pre + s + post =~= pre + (s + post));
    lemma_trim_start_skips(pre, s + post);
    if s.len() > 0 {
        assert((s + post)[0] == s[0]);
        lemma_trim_start_stops(s + post);
    } else {
        assert(s + post =~= post + s);
        lemma_trim_start_skips(post, s);
        assert(trim_start(s) == s);
    }
    lemma_trim_end_skips(s, post);
    lemma_trim_end_stops(s);
}

/// A response that is bare JSON text, with any whitespace around it and
/// inside its own ends, reaches the parser as the trimmed text (when that
/// does not begin or end with a code fence).
pub proof fn lemma_clean_keeps_bare_text(pre: Seq<char>, body: Seq<char>, post: Seq<char>)
    requires
        all_whitespace(pre),
        all_whitespace(post),
        trim(body).len() < 3 || trim(body).take(3) != fence(),
        trim(body).len() < 3 || trim(body).skip(trim(body).len() - 3) != fence(),
    ensures
        clean_response(pre + body + post) == trim(body),
{
    let t = trim(body);
    lemma_trim_padded_any(pre, body, post);
    lemma_trim_no_edge_whitespace(body);
    lemma_trim_padded(Seq::empty(), t, Seq::empty());
    assert(Seq::<char>::empty() + t + Seq::<char>::empty() =~= t);
    lemma_clean_keeps_trimmed_text(t);
}

/// A JSON text in a Markdown code block, the opening fence "```json" and
/// the closing fence "```" each on a line of their own, with any whitespace
/// around the block and inside it, is cleaned to the trimmed text.
pub proof fn lemma_clean_unwraps_code_block(pre: Seq<char>, body: Seq<char>, post: Seq<char>)
    requires
        all_whitespace(pre),
        all_whitespace(post),
    ensures
        clean_response(pre + (json_fence() + seq!['\n'] + body + seq!['\n'] + fence()) + post)
            == trim(body),
{
    let block = json_fence() + seq!['\n'] + body + seq!['\n'] + fence();
    assert(block[0] == '`');
    assert(block.last() == '`');
    lemma_trim_padded(pre, block, post);
    lemma_trim_padded(Seq::empty(), block, Seq::empty());
    assert(Seq::<char>::empty() + block + Seq::<char>::empty() =~= block);
    lemma_clean_unwraps_bare_code_block(body);
}

/// The parser sees the same text whether or not the model fenced its JSON
/// answer: fenced or bare, with any whitespace padding, the cleaned text is
/// the trimmed JSON (when that does not begin or end with a code fence).
pub proof fn lemma_fenced_and_bare_clean_alike(
    pre: Seq<char>,
    body: Seq<char>,
    post: Seq<char>,
)
    requires
        all_whitespace(pre),
        all_whitespace(post),
        trim(body).len() < 3 || trim(body).take(3) != fence(),
        trim(body).len() < 3 || trim(body).skip(trim(body).len() - 3) != fence(),
    ensures
        clean_response(pre + (json_fence() + seq!['\n'] + body + seq!['\n'] + fence()) + post)
            == clean_response(pre + body + post),
{
    lemma_clean_unwraps_code_block(pre, body, post);
    lemma_clean_keeps_bare_text(pre, body, post);
}

/// Whether `c` is Unicode whitespace.
pub fn char_is_whitespace(c: char) -> (r: bool)
    ensures
        r == is_whitespace(c),
{
    let u = c as u32;
    (0x9 <= u && u <= 0xD) || u == 0x20 || u == 0x85 || u == 0xA0 || u == 0x1680 || (0x2000 <= u
        && u <= 0x200A) || u == 0x2028 || u == 0x2029 || u == 0x202F || u == 0x205F || u == 0x3000
}

/// The characters of `s`.
fn chars_of(s: &str) -> (v: Vec<char>)
    ensures
        v@ == s@,
{
    let n = s.unicode_len();
    let mut v: Vec<char> = Vec::new();
    let mut i: usize = 0;
    while i < n
        invariant
            n == s@.len(),
            i <= n,
            v@ == s@.take(i as int),
        decreases n - i,
    {
        let c = s.get_char(i);
        v.push(c);
        assert(s@.take(i + 1) =~= s@.take(i as int).push(c));
        i = i + 1;
    }
    assert(s@.take(n as int) =~= s@);
    v
}

/// Start of `trim_start` of the window `s[lo..hi]`.
fn trim_start_at(s: &Vec<char>, lo: usize, hi: usize) -> (r: usize)
    requires
        lo <= hi <= s.len(),
    ensures
        lo <= r <= hi,
        s@.subrange(r as int, hi as int) == trim_start(s@.subrange(lo as int, hi as int)),
{
    let mut i = lo;
    while i < hi && char_is_whitespace(s[i])
        invariant
            lo <= i <= hi <= s.len(),
            trim_start(s@.subrange(i as int, hi as int)) == trim_start(
                s@.subrange(lo as int, hi as int),
            ),
        decreases hi - i,
    {
        assert(s@.subrange(i as int, hi as int).drop_first() =~= s@.subrange(i + 1, hi as int));
        i = i + 1;
    }
    i
}

/// End of `trim_end` of the window `s[lo..hi]`.
fn trim_end_at(s: &Vec<char>, lo: usize, hi: usize) -> (r: usize)
    requires
        lo <= hi <= s.len(),
    ensures
        lo <= r <= hi,
        s@.subrange(lo as int, r as int) == trim_end(s@.subrange(lo as int, hi as int)),
{
    let mut j = hi;
    while j > lo && char_is_whitespace(s[j - 1])
        invariant
            lo <= j <= hi <= s.len(),
            trim_end(s@.subrange(lo as int, j as int)) == trim_end(
                s@.subrange(lo as int, hi as int),
            ),
        decreases j - lo,
    {
        assert(s@.subrange(lo as int, j as int).drop_last() =~= s@.subrange(lo as int, j - 1));
        j = j - 1;
    }
    j
}

/// Whether `p` occurs in `s` at position `at`.
fn matches_at(s: &Vec<char>, at: usize, p: &Vec<char>) -> (r: bool)
    requires
        at + p.len() <= s.len(),
    ensures
        r == (s@.subrange(at as int, at + p.len()) == p@),
{
    let mut k: usize = 0;
    while k < p.len()
        invariant
            at + p.len() <= s.len(),
            k <= p.len(),
            forall|m: int| 0 <= m < k ==> s@[at + m] == p@[m],
        decreases p.len() - k,
    {
        if s[at + k] != p[k] {
            assert(s@.subrange(at as int, at + p.len())[k as int] != p@[k as int]);
            return false;
        }
        k = k + 1;
    }
    assert(s@.subrange(at as int, at + p.len()) =~= p@);
    true
}

/// Start of `strip_prefixes` of the window `s[lo..hi]` by `p`.
fn strip_prefixes_at(s: &Vec<char>, lo: usize, hi: usize, p: &Vec<char>) -> (r: usize)
    requires
        lo <= hi <= s.len(),
        p.len() > 0,
    ensures
        lo <= r <= hi,
        s@.subrange(r as int, hi as int) == strip_prefixes(s@.subrange(lo as int, hi as int), p@),
{
    let mut i = lo;
    while p.len() <= hi - i && matches_at(s, i, p)
        invariant
            lo <= i <= hi <= s.len(),
            p.len() > 0,
            strip_prefixes(s@.subrange(i as int, hi as int), p@) == strip_prefixes(
                s@.subrange(lo as int, hi as int),
                p@,
            ),
        decreases hi - i,
    {
        let ghost w = s@.subrange(i as int, hi as int);
        assert(w.take(p.len() as int) =~= s@.subrange(i as int, i + p.len()));
        assert(w.skip(p.len() as int) =~= s@.subrange(i + p.len(), hi as int));
        i = i + p.len();
    }
    let ghost w = s@.subrange(i as int, hi as int);
    if p.len() <= hi - i {
        assert(w.take(p.len() as int) =~= s@.subrange(i as int, i + p.len()));
    }
    i
}

/// End of `strip_suffixes` of the window `s[lo..hi]` by `p`.
fn strip_suffixes_at(s: &Vec<char>, lo: usize, hi: usize, p: &Vec<char>) -> (r: usize)
    requires
        lo <= hi <= s.len(),
        p.len() > 0,
    ensures
        lo <= r <= hi,
        s@.subrange(lo as int, r as int) == strip_suffixes(s@.subrange(lo as int, hi as int), p@),
{
    let mut j = hi;
    while p.len() <= j - lo && matches_at(s, j - p.len(), p)
        invariant
            lo <= j <= hi <= s.len(),
            p.len() > 0,
            strip_suffixes(s@.subrange(lo as int, j as int), p@) == strip_suffixes(
                s@.subrange(lo as int, hi as int),
                p@,
            ),
        decreases j - lo,
    {
        let ghost w = s@.subrange(lo as int, j as int);
        assert(w.skip(w.len() - p.len()) =~= s@.subrange(j - p.len(), j as int));
        assert(w.take(w.len() - p.len()) =~= s@.subrange(lo as int, j - p.len()));
        j = j - p.len();
    }
    let ghost w = s@.subrange(lo as int, j as int);
    if p.len() <= j - lo {
        assert(w.skip(w.len() - p.len()) =~= s@.subrange(j - p.len(), j as int));
    }
    j
}

/// Removes surrounding whitespace and Markdown code fences from a model
/// response.
pub fn clean_response_text(raw: &str) -> (r: String)
    ensures
        r@ == clean_response(raw@),
{
    let s = chars_of(raw);
    let n = s.len();
    let json: Vec<char> = vec!['`', '`', '`', 'j', 's', 'o', 'n'];
    let bare: Vec<char> = vec!['`', '`', '`'];
    assert(json@ == json_fence());
    assert(bare@ == fence());
    assert(s@.subrange(0, n as int) =~= s@);
    let lo = trim_start_at(&s, 0, n);
    let hi = trim_end_at(&s, lo, n);
    let lo = strip_prefixes_at(&s, lo, hi, &json);
    let lo = strip_prefixes_at(&s, lo, hi, &bare);
    let hi = strip_suffixes_at(&s, lo, hi, &bare);
    let lo = trim_start_at(&s, lo, hi);
    let hi = trim_end_at(&s, lo, hi);
    let out = raw.substring_char(lo, hi);
    String::from_str(out)
}

} // verus!
