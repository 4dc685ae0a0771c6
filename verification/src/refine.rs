//! The text side of LLM refinement: how the transcript is framed for the
//! model, whether the prompt leaves room for the reply, and how the model's
//! reply is cleaned before it is shown or pasted.
use vstd::prelude::*;

use crate::text;
use crate::text::CharClass;

verus! {

/// Context window the refinement model is created with, in tokens.
pub const N_CTX: usize = 4096;

/// Most tokens one refinement may generate.
pub const MAX_NEW_TOKENS: usize = 256;

/// Smallest batch the prompt is decoded in.
pub const MIN_BATCH: usize = 512;

/// Header of a thinking-mode block that the model may put before its answer.
pub const THOUGHT_PREFIX: &'static str = "<|channel>thought\n";

pub const TRANSCRIPT_OPEN: &'static str = "--- TRANSCRIPTION ---\n";

pub const TRANSCRIPT_CLOSE: &'static str = "\n--- END ---";

pub open spec fn starts_with(s: Seq<char>, p: Seq<char>) -> bool {
    p.len() <= s.len() && s.take(p.len() as int) == p
}

/// First index from `i` on where `a` is directly followed by `b`.
pub open spec fn find_pair_from(s: Seq<char>, a: char, b: char, i: int) -> Option<int>
    decreases s.len() - i,
{
    if i < 0 || i + 1 >= s.len() {
        None
    } else if s[i] == a && s[i + 1] == b {
        Some(i)
    } else {
        find_pair_from(s, a, b, i + 1)
    }
}

/// `str::find("<|")`.
pub open spec fn find_tag_open(s: Seq<char>) -> Option<int> {
    find_pair_from(s, '<', '|', 0)
}

/// Drops a leading thinking-mode block: after the thought header, everything
/// up to the next tag, the tag itself through its `>`, and the white space
/// after it. Text without the header, or without a later tag, is unchanged.
pub open spec fn strip_thought(s: Seq<char>) -> Seq<char> {
    if starts_with(s, THOUGHT_PREFIX@) {
        let rest = s.skip(THOUGHT_PREFIX@.len() as int);
        match find_tag_open(rest) {
            Some(e) => text::trim_start(
                text::trim_start_by(
                    text::trim_start_by(rest.skip(e), CharClass::NotGt),
                    CharClass::Gt,
                ),
            ),
            None => s,
        }
    } else {
        s
    }
}

/// The inside of `s` when it starts with `open` and ends with `close` and
/// these are two different characters of it.
pub open spec fn strip_wrapping(s: Seq<char>, open: char, close: char) -> Option<Seq<char>> {
    if s.len() >= 2 && s[0] == open && s.last() == close {
        Some(s.subrange(1, s.len() - 1))
    } else {
        None
    }
}

/// Removes one pair of wrapping ASCII double quotes, or else one pair of
/// typographic double quotes.
pub open spec fn unquote(t: Seq<char>) -> Seq<char> {
    match strip_wrapping(t, '"', '"') {
        Some(x) => x,
        None => match strip_wrapping(t, '\u{201C}', '\u{201D}') {
            Some(x) => x,
            None => t,
        },
    }
}

/// The model's reply as shown to the user.
pub open spec fn cleaned(s: Seq<char>) -> Seq<char> {
    text::trim(unquote(strip_thought(text::trim(s))))
}

/// The user turn that frames a transcript for the model.
pub open spec fn user_message(raw: Seq<char>) -> Seq<char> {
    TRANSCRIPT_OPEN@ + text::trim(raw) + TRANSCRIPT_CLOSE@
}

fn starts_with_str(s: &Vec<char>, p: &str) -> (res: bool)
    ensures
        res == starts_with(s@, p@),
{
    let pv = text::chars_of(p);
    if pv.len() > s.len() {
        return false;
    }
    let head = text::sub_chars(s, 0, pv.len());
    assert(head@ =~= s@.take(pv@.len() as int));
    text::chars_eq(&head, &pv)
}

fn find_pair(s: &Vec<char>, a: char, b: char) -> (res: Option<usize>)
    ensures
        match res {
            Some(i) => find_pair_from(s@, a, b, 0) == Some(i as int),
            None => find_pair_from(s@, a, b, 0) is None,
        },
        res matches Some(i) ==> i + 1 < s@.len(),
{
    let mut i: usize = 0;
    while s.len() > 1 && i < s.len() - 1
        invariant
            find_pair_from(s@, a, b, 0) == find_pair_from(s@, a, b, i as int),
        decreases s.len() - i,
    {
        if s[i] == a && s[i + 1] == b {
            return Some(i);
        }
        i = i + 1;
    }
    None
}

/// Drops a leading thinking-mode block from the model's reply.
pub fn strip_thought_prefix(s: &Vec<char>) -> (res: Vec<char>)
    ensures
        res@ == strip_thought(s@),
{
    if !starts_with_str(s, THOUGHT_PREFIX) {
        return s.clone();
    }
    let plen = text::chars_of(THOUGHT_PREFIX).len();
    let rest = text::sub_chars(s, plen, s.len());
    assert(rest@ =~= s@.skip(THOUGHT_PREFIX@.len() as int));
    match find_pair(&rest, '<', '|') {
        Some(e) => {
            let tail = text::sub_chars(&rest, e, rest.len());
            assert(tail@ =~= rest@.skip(e as int));
            let a = text::trim_start_class(&tail, CharClass::NotGt);
            let b = text::trim_start_class(&a, CharClass::Gt);
            text::trim_start_class(&b, CharClass::WhiteSpace)
        },
        None => s.clone(),
    }
}

/// The inside of `s` when it is wrapped in `open` ... `close`.
pub fn strip_wrapping_chars(s: &Vec<char>, open: char, close: char) -> (res: Option<Vec<char>>)
    ensures
        match res {
            Some(x) => strip_wrapping(s@, open, close) == Some(x@),
            None => strip_wrapping(s@, open, close) is None,
        },
{
    if s.len() >= 2 && s[0] == open && s[s.len() - 1] == close {
        Some(text::sub_chars(s, 1, s.len() - 1))
    } else {
        None
    }
}

/// Cleans the model's reply: trims it, drops a leading thinking block, then
/// removes one pair of wrapping quotes (plain or typographic, never a lone
/// quote) and trims again.
pub fn clean(s: &str) -> (res: String)
    ensures
        res@ == cleaned(s@),
{
    let v = text::chars_of(s);
    let t = text::trim_chars(&v);
    let u = strip_thought_prefix(&t);
    let inner = match strip_wrapping_chars(&u, '"', '"') {
        Some(x) => x,
        None => match strip_wrapping_chars(&u, '\u{201C}', '\u{201D}') {
            Some(x) => x,
            None => u,
        },
    };
    let out = text::trim_chars(&inner);
    text::string_from_chars(&out)
}

/// Frames a transcript for the model: the trimmed transcript between a
/// header and an end marker, so the model keeps it apart from its
/// instructions.
pub fn transcript_message(raw: &str) -> (res: String)
    ensures
        res@ == user_message(raw@),
{
    let mut v = text::chars_of(TRANSCRIPT_OPEN);
    let r = text::chars_of(raw);
    let mut t = text::trim_chars(&r);
    let mut close = text::chars_of(TRANSCRIPT_CLOSE);
    v.append(&mut t);
    v.append(&mut close);
    text::string_from_chars(&v)
}

/// The cleaned reply never starts or ends with white space.
pub proof fn law_clean_is_trimmed(s: Seq<char>)
    ensures
        text::trim(cleaned(s)) == cleaned(s),
{
    text::lemma_trim_idempotent(unquote(strip_thought(text::trim(s))));
}

/// Quotes are only removed in matching pairs around the whole reply: when
/// the reply (trimmed, thinking block dropped) is not wrapped in a pair of
/// plain or typographic double quotes, cleaning only trims it.
pub proof fn law_clean_keeps_unpaired_quotes(s: Seq<char>)
    requires
        ({
            let t = strip_thought(text::trim(s));
            strip_wrapping(t, '"', '"') is None && strip_wrapping(t, '\u{201C}', '\u{201D}') is None
        }),
    ensures
        cleaned(s) == text::trim(strip_thought(text::trim(s))),
{
}

/// Whether `r` is a contiguous run of the characters of `s`.
pub open spec fn is_part_of(r: Seq<char>, s: Seq<char>) -> bool {
    exists|i: int, j: int| #![trigger s.subrange(i, j)] 0 <= i <= j <= s.len() && r == s.subrange(i, j)
}

proof fn lemma_part_trans(r: Seq<char>, y: Seq<char>, x: Seq<char>)
    requires
        is_part_of(r, y),
        is_part_of(y, x),
    ensures
        is_part_of(r, x),
{
    let (i, j) = choose|i: int, j: int| 0 <= i <= j <= y.len() && r == y.subrange(i, j);
    let (a, b) = choose|a: int, b: int| 0 <= a <= b <= x.len() && y == x.subrange(a, b);
    assert(r =~= x.subrange(a + i, a + j));
}

proof fn lemma_part_refl(x: Seq<char>)
    ensures
        is_part_of(x, x),
{
    assert(x =~= x.subrange(0, x.len() as int));
}

proof fn lemma_skip_part(x: Seq<char>, n: int)
    requires
        0 <= n <= x.len(),
    ensures
        is_part_of(x.skip(n), x),
{
    assert(x.skip(n) =~= x.subrange(n, x.len() as int));
}

proof fn lemma_take_part(x: Seq<char>, n: int)
    requires
        0 <= n <= x.len(),
    ensures
        is_part_of(x.take(n), x),
{
    assert(x.take(n) =~= x.subrange(0, n));
}

proof fn lemma_trim_start_by_part(x: Seq<char>, cls: CharClass)
    ensures
        is_part_of(text::trim_start_by(x, cls), x),
{
    text::lemma_leading_bound(x, cls);
    lemma_skip_part(x, text::leading_count(x, cls) as int);
}

proof fn lemma_trim_part(x: Seq<char>)
    ensures
        is_part_of(text::trim(x), x),
{
    let cls = CharClass::WhiteSpace;
    let t = text::trim_start_by(x, cls);
    lemma_trim_start_by_part(x, cls);
    text::lemma_trailing_bound(t, cls);
    lemma_take_part(t, t.len() - text::trailing_count(t, cls));
    lemma_part_trans(text::trim(x), t, x);
}

proof fn lemma_strip_thought_part(x: Seq<char>)
    ensures
        is_part_of(strip_thought(x), x),
{
    if starts_with(x, THOUGHT_PREFIX@) {
        let rest = x.skip(THOUGHT_PREFIX@.len() as int);
        lemma_skip_part(x, THOUGHT_PREFIX@.len() as int);
        match find_tag_open(rest) {
            Some(e) => {
                lemma_find_pair_bound(rest, '<', '|', 0);
                let a = rest.skip(e);
                let b = text::trim_start_by(a, CharClass::NotGt);
                let c = text::trim_start_by(b, CharClass::Gt);
                lemma_skip_part(rest, e);
                lemma_trim_start_by_part(a, CharClass::NotGt);
                lemma_trim_start_by_part(b, CharClass::Gt);
                lemma_trim_start_by_part(c, CharClass::WhiteSpace);
                lemma_part_trans(b, a, rest);
                lemma_part_trans(c, b, rest);
                lemma_part_trans(strip_thought(x), c, rest);
                lemma_part_trans(strip_thought(x), rest, x);
            },
            None => {
                lemma_part_refl(x);
            },
        }
    } else {
        lemma_part_refl(x);
    }
}

proof fn lemma_find_pair_bound(s: Seq<char>, a: char, b: char, i: int)
    ensures
        find_pair_from(s, a, b, i) matches Some(k) ==> i <= k && k + 1 < s.len(),
    decreases s.len() - i,
{
    if !(i < 0 || i + 1 >= s.len()) && !(s[i] == a && s[i + 1] == b) {
        lemma_find_pair_bound(s, a, b, i + 1);
    }
}

proof fn lemma_unquote_part(x: Seq<char>)
    ensures
        is_part_of(unquote(x), x),
{
    if x.len() >= 2 {
        assert(is_part_of(x.subrange(1, x.len() - 1), x));
    }
    lemma_part_refl(x);
}

/// The cleaned reply is a contiguous part of the reply as given; and when
/// the trimmed reply opens with no thinking block and is not wrapped in a
/// pair of plain or typographic double quotes, it is the trimmed reply.
pub proof fn law_clean_is_part_of_reply(s: Seq<char>)
    ensures
        is_part_of(cleaned(s), s),
        !starts_with(text::trim(s), THOUGHT_PREFIX@) && strip_wrapping(text::trim(s), '"', '"')
            is None && strip_wrapping(text::trim(s), '\u{201C}', '\u{201D}') is None ==> cleaned(s)
            == text::trim(s),
{
    let t = text::trim(s);
    let u = strip_thought(t);
    let v = unquote(u);
    lemma_trim_part(s);
    lemma_strip_thought_part(t);
    lemma_unquote_part(u);
    lemma_trim_part(v);
    lemma_part_trans(u, t, s);
    lemma_part_trans(v, u, s);
    lemma_part_trans(cleaned(s), v, s);
    text::lemma_trim_idempotent(s);
}

/// A prompt too long to leave room for the reply in the context window.
#[derive(Debug, Clone, Copy, PartialEq, Eq)]
pub struct PromptTooLong {
    pub prompt_tokens: usize,
}

/// Whether a prompt of `prompt_tokens` tokens leaves room for
/// `MAX_NEW_TOKENS` more in the context window.
pub fn check_prompt_budget(prompt_tokens: usize) -> (res: Result<(), PromptTooLong>)
    requires
        prompt_tokens + MAX_NEW_TOKENS <= i32::MAX,
    ensures
        res is Ok <==> prompt_tokens + MAX_NEW_TOKENS <= N_CTX,
        res matches Err(e) ==> e.prompt_tokens == prompt_tokens,
{
    if prompt_tokens + MAX_NEW_TOKENS > N_CTX {
        Err(PromptTooLong { prompt_tokens })
    } else {
        Ok(())
    }
}

/// Capacity of the batch the prompt is decoded in.
pub fn batch_capacity(prompt_tokens: usize) -> (res: usize)
    ensures
        res == (if prompt_tokens >= MIN_BATCH {
            prompt_tokens
        } else {
            MIN_BATCH
        }),
{
    if prompt_tokens >= MIN_BATCH {
        prompt_tokens
    } else {
        MIN_BATCH
    }
}

/// Position at which generation stops for a prompt of `prompt_tokens`
/// tokens.
pub fn generation_limit(prompt_tokens: usize) -> (res: usize)
    requires
        prompt_tokens + MAX_NEW_TOKENS <= usize::MAX,
    ensures
        res == prompt_tokens + MAX_NEW_TOKENS,
{
    prompt_tokens + MAX_NEW_TOKENS
}

} // verus!
