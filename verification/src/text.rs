//! Character-level text model shared by the transcript, hotkey, version and
//! refinement logic: Unicode white space, trimming by character classes,
//! ASCII case folding, splitting, and the conversions between `str`/`String`
//! and character vectors.
use vstd::prelude::*;

verus! {

/// `char::is_whitespace`: the Unicode `White_Space` property.
pub open spec fn is_white_space(c: char) -> bool {
    let u = c as u32;
    ||| (0x9 <= u && u <= 0xd)
    ||| u == 0x20
    ||| u == 0x85
    ||| u == 0xa0
    ||| u == 0x1680
    ||| (0x2000 <= u && u <= 0x200a)
    ||| u == 0x2028
    ||| u == 0x2029
    ||| u == 0x202f
    ||| u == 0x205f
    ||| u == 0x3000
}

/// The character classes that the library trims by.
#[derive(Clone, Copy, PartialEq, Eq, Debug, Structural)]
pub enum CharClass {
    /// Unicode white space.
    WhiteSpace,
    /// The opening wrappers `[`, `(`, `{` and `<`.
    OpenWrapper,
    /// The closing wrappers `]`, `)`, `}` and `>`.
    CloseWrapper,
    /// The character `>`.
    Gt,
    /// Every character but `>`.
    NotGt,
    /// The given character.
    Only(char),
}

pub open spec fn in_class(c: char, cls: CharClass) -> bool {
    match cls {
        CharClass::WhiteSpace => is_white_space(c),
        CharClass::OpenWrapper => c == '[' || c == '(' || c == '{' || c == '<',
        CharClass::CloseWrapper => c == ']' || c == ')' || c == '}' || c == '>',
        CharClass::Gt => c == '>',
        CharClass::NotGt => c != '>',
        CharClass::Only(x) => c == x,
    }
}

/// Number of leading characters of `s` that belong to `cls`.
pub open spec fn leading_count(s: Seq<char>, cls: CharClass) -> nat
    decreases s.len(),
{
    if s.len() > 0 && in_class(s[0], cls) {
        1 + leading_count(s.drop_first(), cls)
    } else {
        0
    }
}

/// Number of trailing characters of `s` that belong to `cls`.
pub open spec fn trailing_count(s: Seq<char>, cls: CharClass) -> nat
    decreases s.len(),
{
    if s.len() > 0 && in_class(s.last(), cls) {
        1 + trailing_count(s.drop_last(), cls)
    } else {
        0
    }
}

/// `str::trim_start_matches` with a class of characters.
pub open spec fn trim_start_by(s: Seq<char>, cls: CharClass) -> Seq<char> {
    s.skip(leading_count(s, cls) as int)
}

/// `str::trim_end_matches` with a class of characters.
pub open spec fn trim_end_by(s: Seq<char>, cls: CharClass) -> Seq<char> {
    s.take(s.len() - trailing_count(s, cls))
}

/// `str::trim_start`.
pub open spec fn trim_start(s: Seq<char>) -> Seq<char> {
    trim_start_by(s, CharClass::WhiteSpace)
}

/// `str::trim`: no white space at either end.
pub open spec fn trim(s: Seq<char>) -> Seq<char> {
    trim_end_by(trim_start_by(s, CharClass::WhiteSpace), CharClass::WhiteSpace)
}

/// Whether `s` holds nothing but white space (`s.trim().is_empty()`).
pub open spec fn is_blank(s: Seq<char>) -> bool {
    trim(s).len() == 0
}

/// `char::to_ascii_lowercase`.
pub open spec fn ascii_lower_char(c: char) -> char {
    if 'A' <= c && c <= 'Z' {
        (((c as u8) + 32) as u8) as char
    } else {
        c
    }
}

/// `char::to_ascii_uppercase`.
pub open spec fn ascii_upper_char(c: char) -> char {
    if 'a' <= c && c <= 'z' {
        (((c as u8) - 32) as u8) as char
    } else {
        c
    }
}

/// `str::to_ascii_lowercase`.
pub open spec fn ascii_lower(s: Seq<char>) -> Seq<char> {
    s.map_values(|c: char| ascii_lower_char(c))
}

/// Pieces of `s` between the characters that `is_sep` marks, as
/// `str::split` gives them: one more piece than there are separators.
pub open spec fn split_by(s: Seq<char>, is_sep: spec_fn(char) -> bool) -> Seq<Seq<char>>
    decreases s.len(),
{
    if s.len() == 0 {
        seq![Seq::<char>::empty()]
    } else {
        let pieces = split_by(s.drop_last(), is_sep);
        if is_sep(s.last()) {
            pieces.push(Seq::<char>::empty())
        } else {
            pieces.update(pieces.len() - 1, pieces.last().push(s.last()))
        }
    }
}

/// Number of UTF-16 code units that `c` encodes to.
pub open spec fn utf16_width(c: char) -> nat {
    if (c as u32) >= 0x10000 {
        2
    } else {
        1
    }
}

/// Number of UTF-16 code units of `s` (`str::encode_utf16().count()`).
pub open spec fn utf16_len(s: Seq<char>) -> nat
    decreases s.len(),
{
    if s.len() == 0 {
        0
    } else {
        utf16_len(s.drop_last()) + utf16_width(s.last())
    }
}

pub proof fn lemma_split_nonempty(s: Seq<char>, is_sep: spec_fn(char) -> bool)
    ensures
        split_by(s, is_sep).len() >= 1,
    decreases s.len(),
{
    if s.len() > 0 {
        lemma_split_nonempty(s.drop_last(), is_sep);
    }
}

proof fn lemma_leading_step(s: Seq<char>, i: int, cls: CharClass)
    requires
        0 <= i < s.len(),
    ensures
        in_class(s[i], cls) ==> leading_count(s.skip(i), cls) == 1 + leading_count(
            s.skip(i + 1),
            cls,
        ),
        !in_class(s[i], cls) ==> leading_count(s.skip(i), cls) == 0,
{
    assert(s.skip(i).drop_first() =~= s.skip(i + 1));
}

proof fn lemma_trailing_step(s: Seq<char>, j: int, cls: CharClass)
    requires
        0 < j <= s.len(),
    ensures
        in_class(s[j - 1], cls) ==> trailing_count(s.take(j), cls) == 1 + trailing_count(
            s.take(j - 1),
            cls,
        ),
        !in_class(s[j - 1], cls) ==> trailing_count(s.take(j), cls) == 0,
{
    assert(s.take(j).drop_last() =~= s.take(j - 1));
}

pub proof fn lemma_leading_bound(s: Seq<char>, cls: CharClass)
    ensures
        leading_count(s, cls) <= s.len(),
        forall|k: int| 0 <= k < leading_count(s, cls) ==> in_class(#[trigger] s[k], cls),
        leading_count(s, cls) < s.len() ==> !in_class(s[leading_count(s, cls) as int], cls),
    decreases s.len(),
{
    if s.len() > 0 && in_class(s[0], cls) {
        lemma_leading_bound(s.drop_first(), cls);
        assert forall|k: int| 0 <= k < leading_count(s, cls) implies in_class(
            #[trigger] s[k],
            cls,
        ) by {
            if k > 0 {
                assert(s[k] == s.drop_first()[k - 1]);
            }
        }
    }
}

pub proof fn lemma_trailing_bound(s: Seq<char>, cls: CharClass)
    ensures
        trailing_count(s, cls) <= s.len(),
        forall|k: int|
            s.len() - trailing_count(s, cls) <= k < s.len() ==> in_class(#[trigger] s[k], cls),
        trailing_count(s, cls) < s.len() ==> !in_class(
            s[s.len() - trailing_count(s, cls) - 1],
            cls,
        ),
    decreases s.len(),
{
    if s.len() > 0 && in_class(s.last(), cls) {
        lemma_trailing_bound(s.drop_last(), cls);
        assert forall|k: int| s.len() - trailing_count(s, cls) <= k < s.len() implies in_class(
            #[trigger] s[k],
            cls,
        ) by {
            if k < s.len() - 1 {
                assert(s[k] == s.drop_last()[k]);
            }
        }
    }
}

/// Trimming twice trims no more than trimming once.
pub proof fn lemma_trim_idempotent(s: Seq<char>)
    ensures
        trim(trim(s)) == trim(s),
{
    let cls = CharClass::WhiteSpace;
    let t = trim_start_by(s, cls);
    lemma_leading_bound(s, cls);
    lemma_trailing_bound(t, cls);
    let u = trim(s);
    assert(u == t.take(t.len() - trailing_count(t, cls)));
    if u.len() > 0 {
        assert(u[0] == t[0]);
        assert(u.last() == t[t.len() - trailing_count(t, cls) - 1]);
    }
    assert(leading_count(u, cls) == 0);
    assert(u.skip(0) =~= u);
    assert(trim_start_by(u, cls) == u);
    assert(trailing_count(u, cls) == 0);
    assert(u.take(u.len() as int) =~= u);
}

/// The classes that ASCII case folding cannot move a character into or out
/// of.
pub open spec fn case_blind(cls: CharClass) -> bool {
    !(cls is Only)
}

pub proof fn lemma_lower_char(c: char)
    ensures
        'A' <= c <= 'Z' ==> 'a' <= ascii_lower_char(c) <= 'z',
        !('A' <= c <= 'Z') ==> ascii_lower_char(c) == c,
        ascii_lower_char(ascii_lower_char(c)) == ascii_lower_char(c),
{
    if 'A' <= c && c <= 'Z' {
        let b = (((c as u8) + 32) as u8);
        assert(b as u32 == (c as u32) + 32);
        assert((b as char) as u32 == b as u32);
    }
}

pub proof fn lemma_class_lower(c: char, cls: CharClass)
    requires
        case_blind(cls),
    ensures
        in_class(ascii_lower_char(c), cls) == in_class(c, cls),
{
    lemma_lower_char(c);
}

pub proof fn lemma_lower_len(s: Seq<char>)
    ensures
        ascii_lower(s).len() == s.len(),
{
}

pub proof fn lemma_leading_lower(s: Seq<char>, cls: CharClass)
    requires
        case_blind(cls),
    ensures
        leading_count(ascii_lower(s), cls) == leading_count(s, cls),
    decreases s.len(),
{
    if s.len() > 0 {
        lemma_class_lower(s[0], cls);
        assert(ascii_lower(s).drop_first() =~= ascii_lower(s.drop_first()));
        lemma_leading_lower(s.drop_first(), cls);
    }
}

pub proof fn lemma_trailing_lower(s: Seq<char>, cls: CharClass)
    requires
        case_blind(cls),
    ensures
        trailing_count(ascii_lower(s), cls) == trailing_count(s, cls),
    decreases s.len(),
{
    if s.len() > 0 {
        lemma_class_lower(s.last(), cls);
        assert(ascii_lower(s).drop_last() =~= ascii_lower(s.drop_last()));
        lemma_trailing_lower(s.drop_last(), cls);
    }
}

/// Trimming a case-blind class commutes with ASCII case folding.
pub proof fn lemma_trim_start_by_lower(s: Seq<char>, cls: CharClass)
    requires
        case_blind(cls),
    ensures
        trim_start_by(ascii_lower(s), cls) == ascii_lower(trim_start_by(s, cls)),
{
    lemma_leading_lower(s, cls);
    lemma_leading_bound(s, cls);
    assert(trim_start_by(ascii_lower(s), cls) =~= ascii_lower(trim_start_by(s, cls)));
}

pub proof fn lemma_trim_end_by_lower(s: Seq<char>, cls: CharClass)
    requires
        case_blind(cls),
    ensures
        trim_end_by(ascii_lower(s), cls) == ascii_lower(trim_end_by(s, cls)),
{
    lemma_trailing_lower(s, cls);
    lemma_trailing_bound(s, cls);
    assert(trim_end_by(ascii_lower(s), cls) =~= ascii_lower(trim_end_by(s, cls)));
}

pub proof fn lemma_trim_lower(s: Seq<char>)
    ensures
        trim(ascii_lower(s)) == ascii_lower(trim(s)),
{
    lemma_trim_start_by_lower(s, CharClass::WhiteSpace);
    lemma_trim_end_by_lower(trim_start_by(s, CharClass::WhiteSpace), CharClass::WhiteSpace);
}

pub proof fn lemma_lower_idempotent(s: Seq<char>)
    ensures
        ascii_lower(ascii_lower(s)) == ascii_lower(s),
{
    assert forall|i: int| 0 <= i < s.len() implies ascii_lower(ascii_lower(s))[i] == ascii_lower(
        s,
    )[i] by {
        lemma_lower_char(s[i]);
    }
    assert(ascii_lower(ascii_lower(s)) =~= ascii_lower(s));
}

/// Whether `c` belongs to `cls`.
pub fn char_in_class(c: char, cls: CharClass) -> (res: bool)
    ensures
        res == in_class(c, cls),
{
    match cls {
        CharClass::WhiteSpace => is_white_space_char(c),
        CharClass::OpenWrapper => c == '[' || c == '(' || c == '{' || c == '<',
        CharClass::CloseWrapper => c == ']' || c == ')' || c == '}' || c == '>',
        CharClass::Gt => c == '>',
        CharClass::NotGt => c != '>',
        CharClass::Only(x) => c == x,
    }
}

/// `char::is_whitespace`.
pub fn is_white_space_char(c: char) -> (res: bool)
    ensures
        res == is_white_space(c),
{
    let u = c as u32;
    (0x9 <= u && u <= 0xd) || u == 0x20 || u == 0x85 || u == 0xa0 || u == 0x1680 || (0x2000 <= u
        && u <= 0x200a) || u == 0x2028 || u == 0x2029 || u == 0x202f || u == 0x205f || u == 0x3000
}

/// How many leading characters of `s` belong to `cls`.
pub fn count_leading(s: &Vec<char>, cls: CharClass) -> (n: usize)
    ensures
        n == leading_count(s@, cls),
{
    let mut i: usize = 0;
    assert(s@.skip(0) =~= s@);
    while i < s.len() && char_in_class(s[i], cls)
        invariant
            i <= s.len(),
            leading_count(s@, cls) == i + leading_count(s@.skip(i as int), cls),
        decreases s.len() - i,
    {
        proof {
            lemma_leading_step(s@, i as int, cls);
        }
        i = i + 1;
    }
    proof {
        if i < s.len() {
            lemma_leading_step(s@, i as int, cls);
        }
    }
    i
}

/// How many trailing characters of `s` belong to `cls`.
pub fn count_trailing(s: &Vec<char>, cls: CharClass) -> (n: usize)
    ensures
        n == trailing_count(s@, cls),
{
    let mut j: usize = s.len();
    assert(s@.take(j as int) =~= s@);
    while j > 0 && char_in_class(s[j - 1], cls)
        invariant
            j <= s.len(),
            trailing_count(s@, cls) == (s.len() - j) + trailing_count(s@.take(j as int), cls),
        decreases j,
    {
        proof {
            lemma_trailing_step(s@, j as int, cls);
        }
        j = j - 1;
    }
    proof {
        if j > 0 {
            lemma_trailing_step(s@, j as int, cls);
        }
    }
    s.len() - j
}

/// The characters of `s` in `[start, end)`.
pub fn sub_chars(s: &Vec<char>, start: usize, end: usize) -> (res: Vec<char>)
    requires
        start <= end <= s.len(),
    ensures
        res@ == s@.subrange(start as int, end as int),
{
    let mut res: Vec<char> = Vec::new();
    let mut i = start;
    while i < end
        invariant
            start <= i <= end <= s.len(),
            res@ == s@.subrange(start as int, i as int),
        decreases end - i,
    {
        res.push(s[i]);
        i = i + 1;
        assert(res@ =~= s@.subrange(start as int, i as int));
    }
    res
}

/// `trim_start_matches` by a class.
pub fn trim_start_class(s: &Vec<char>, cls: CharClass) -> (res: Vec<char>)
    ensures
        res@ == trim_start_by(s@, cls),
{
    let n = count_leading(s, cls);
    proof {
        lemma_leading_bound(s@, cls);
    }
    let res = sub_chars(s, n, s.len());
    assert(res@ =~= s@.skip(n as int));
    res
}

/// `trim_end_matches` by a class.
pub fn trim_end_class(s: &Vec<char>, cls: CharClass) -> (res: Vec<char>)
    ensures
        res@ == trim_end_by(s@, cls),
{
    let n = count_trailing(s, cls);
    proof {
        lemma_trailing_bound(s@, cls);
    }
    let res = sub_chars(s, 0, s.len() - n);
    assert(res@ =~= s@.take(s.len() - n));
    res
}

/// `str::trim` on characters.
pub fn trim_chars(s: &Vec<char>) -> (res: Vec<char>)
    ensures
        res@ == trim(s@),
{
    let a = trim_start_class(s, CharClass::WhiteSpace);
    trim_end_class(&a, CharClass::WhiteSpace)
}

/// `char::to_ascii_lowercase`.
pub fn ascii_lower_of(c: char) -> (res: char)
    ensures
        res == ascii_lower_char(c),
{
    if 'A' <= c && c <= 'Z' {
        let b = (c as u8) + 32;
        b as char
    } else {
        c
    }
}

/// `str::to_ascii_lowercase` on characters.
pub fn ascii_lower_chars(s: &Vec<char>) -> (res: Vec<char>)
    ensures
        res@ == ascii_lower(s@),
{
    let mut res: Vec<char> = Vec::new();
    let mut i: usize = 0;
    while i < s.len()
        invariant
            i <= s.len(),
            res@ == ascii_lower(s@.take(i as int)),
        decreases s.len() - i,
    {
        let c = ascii_lower_of(s[i]);
        res.push(c);
        i = i + 1;
        assert(res@ =~= ascii_lower(s@.take(i as int)));
    }
    assert(s@.take(i as int) =~= s@);
    res
}

/// Whether the characters of `s` spell out `lit`.
pub fn chars_eq_str(s: &Vec<char>, lit: &str) -> (res: bool)
    ensures
        res == (s@ == lit@),
{
    let t = chars_of(lit);
    chars_eq(s, &t)
}

/// Whether two character vectors are equal.
pub fn chars_eq(s: &Vec<char>, t: &Vec<char>) -> (res: bool)
    ensures
        res == (s@ == t@),
{
    if s.len() != t.len() {
        return false;
    }
    let mut i: usize = 0;
    while i < s.len()
        invariant
            i <= s.len(),
            s.len() == t.len(),
            forall|k: int| 0 <= k < i ==> s@[k] == t@[k],
        decreases s.len() - i,
    {
        if s[i] != t[i] {
            return false;
        }
        i = i + 1;
    }
    assert(s@ =~= t@);
    true
}

/// The characters of `s`, in order.
pub fn chars_of(s: &str) -> (res: Vec<char>)
    ensures
        res@ == s@,
{
    let mut res: Vec<char> = Vec::new();
    for c in it: s.chars()
        invariant
            res@ == it.seq().take(it.index() as int),
            it.seq() == s@,
    {
        res.push(c);
    }
    res
}

/// The characters of `s`, in order.
pub fn string_chars(s: &String) -> (res: Vec<char>)
    ensures
        res@ == s@,
{
    chars_of(s.as_str())
}

/// A `String` holding exactly the characters `chars`.
///
/// Trusted: calls `String`'s `FromIterator<&char>`, which std documents as
/// appending each character in turn; the contract claims that the result's
/// characters are `chars`.
#[verifier::external_body]
pub(crate) fn string_from_chars(chars: &Vec<char>) -> (res: String)
    ensures
        res@ == chars@,
{
    chars.iter().collect()
}

/// A `String` holding the characters of `s`.
pub fn owned(s: &str) -> (res: String)
    ensures
        res@ == s@,
{
    let v = chars_of(s);
    string_from_chars(&v)
}

/// `s.trim().is_empty()`.
pub fn blank(s: &str) -> (res: bool)
    ensures
        res == is_blank(s@),
{
    let v = chars_of(s);
    let t = trim_chars(&v);
    t.len() == 0
}

/// `str::trim`, owned.
pub fn trimmed(s: &str) -> (res: String)
    ensures
        res@ == trim(s@),
{
    let v = chars_of(s);
    let t = trim_chars(&v);
    string_from_chars(&t)
}

/// Number of UTF-16 code units of `s`.
pub fn utf16_count(s: &str) -> (n: usize)
    requires
        s@.len() * 2 <= usize::MAX,
    ensures
        n == utf16_len(s@),
{
    let v = chars_of(s);
    let mut n: usize = 0;
    let mut i: usize = 0;
    proof {
        lemma_utf16_len_bound(v@);
    }
    while i < v.len()
        invariant
            i <= v.len(),
            v@ == s@,
            v@.len() * 2 <= usize::MAX,
            n == utf16_len(v@.take(i as int)),
            n <= 2 * i,
        decreases v.len() - i,
    {
        let w: usize = if (v[i] as u32) >= 0x10000 {
            2
        } else {
            1
        };
        n = n + w;
        proof {
            assert(v@.take(i + 1).drop_last() =~= v@.take(i as int));
        }
        i = i + 1;
    }
    assert(v@.take(i as int) =~= v@);
    n
}

pub proof fn lemma_utf16_len_bound(s: Seq<char>)
    ensures
        s.len() <= utf16_len(s) <= 2 * s.len(),
    decreases s.len(),
{
    if s.len() > 0 {
        lemma_utf16_len_bound(s.drop_last());
    }
}

} // verus!
