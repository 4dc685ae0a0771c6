//! Parsing the user's hotkey setting (`"Cmd+Shift+Space"`, `"ctrl+option+a"`,
//! `"Fn"`, ...) into modifiers and a physical key code.
use vstd::prelude::*;

use std::str::FromStr;

use crate::text;

verus! {

/// The modifier keys of a hotkey.
#[derive(Clone, Copy, Debug, PartialEq, Eq, Structural)]
pub struct KeyModifiers {
    pub super_key: bool,
    pub control: bool,
    pub alt: bool,
    pub shift: bool,
}

/// A parsed hotkey: its modifiers and the W3C `code` name of its key
/// (`"KeyA"`, `"Digit5"`, `"Space"`, `"Fn"`, ...).
#[derive(Clone, Debug)]
pub struct Hotkey {
    pub modifiers: KeyModifiers,
    pub code: String,
}

/// Why a hotkey setting was rejected.
#[derive(Clone, Debug)]
pub enum HotkeyError {
    /// A part that is neither a modifier nor a known key (the trimmed part,
    /// as written).
    UnknownKey(String),
    /// No key besides modifiers (the whole setting).
    NoKey(String),
}

impl HotkeyError {
    /// The message shown to the user.
    pub fn message(&self) -> (res: String)
        ensures
            match self {
                HotkeyError::UnknownKey(p) => res@ == "unknown key: "@ + p@,
                HotkeyError::NoKey(s) => res@ == "no key in hotkey: "@ + s@,
            },
    {
        match self {
            HotkeyError::UnknownKey(p) => {
                let mut v = text::chars_of("unknown key: ");
                let mut w = text::string_chars(p);
                v.append(&mut w);
                text::string_from_chars(&v)
            },
            HotkeyError::NoKey(s) => {
                let mut v = text::chars_of("no key in hotkey: ");
                let mut w = text::string_chars(s);
                v.append(&mut w);
                text::string_from_chars(&v)
            },
        }
    }
}

/// Whether `name` is a key `code` name that `keyboard_types::Code` knows.
pub uninterp spec fn known_code_name(name: Seq<char>) -> bool;

/// Trusted: `keyboard_types::Code::from_str`, which matches `name` exactly
/// against the W3C code names; the contract claims only that the answer is
/// a function of `name`.
#[verifier::external_body]
fn code_name_is_known(name: &str) -> (known: bool)
    ensures
        known == known_code_name(name@),
{
    keyboard_types::Code::from_str(name).is_ok()
}

pub open spec fn no_modifiers() -> KeyModifiers {
    KeyModifiers { super_key: false, control: false, alt: false, shift: false }
}

pub open spec fn is_super_name(l: Seq<char>) -> bool {
    l == "cmd"@ || l == "command"@ || l == "meta"@ || l == "super"@ || l == "win"@
}

pub open spec fn is_control_name(l: Seq<char>) -> bool {
    l == "ctrl"@ || l == "control"@
}

pub open spec fn is_alt_name(l: Seq<char>) -> bool {
    l == "alt"@ || l == "option"@ || l == "opt"@
}

pub open spec fn is_shift_name(l: Seq<char>) -> bool {
    l == "shift"@
}

pub open spec fn is_primary_name(l: Seq<char>) -> bool {
    l == "cmdorctrl"@
}

pub open spec fn is_ascii_alpha(c: char) -> bool {
    ('a' <= c && c <= 'z') || ('A' <= c && c <= 'Z')
}

pub open spec fn is_ascii_digit(c: char) -> bool {
    '0' <= c && c <= '9'
}

/// The key `code` name a lower-cased key part asks for.
pub open spec fn code_name(l: Seq<char>) -> Seq<char> {
    if l == "space"@ {
        "Space"@
    } else if l == "enter"@ || l == "return"@ {
        "Enter"@
    } else if l == "tab"@ {
        "Tab"@
    } else if l == "esc"@ || l == "escape"@ {
        "Escape"@
    } else if l == "fn"@ || l == "function"@ {
        "Fn"@
    } else if l.len() == 1 && is_ascii_alpha(l[0]) {
        "Key"@.push(text::ascii_upper_char(l[0]))
    } else if l.len() == 1 && is_ascii_digit(l[0]) {
        "Digit"@.push(l[0])
    } else {
        l
    }
}

/// Progress through the parts: modifiers so far and the last key, or the
/// part that is not a known key.
pub type PartsResult = Result<(KeyModifiers, Option<Seq<char>>), Seq<char>>;

/// The effect of one `+`-separated part. `primary_is_super` says whether
/// `CmdOrCtrl` means the super (command) key, as on macOS, or control.
pub open spec fn apply_part(
    m: KeyModifiers,
    key: Option<Seq<char>>,
    raw: Seq<char>,
    primary_is_super: bool,
) -> PartsResult {
    let part = text::trim(raw);
    let l = text::ascii_lower(part);
    if is_super_name(l) {
        Ok((KeyModifiers { super_key: true, ..m }, key))
    } else if is_control_name(l) {
        Ok((KeyModifiers { control: true, ..m }, key))
    } else if is_alt_name(l) {
        Ok((KeyModifiers { alt: true, ..m }, key))
    } else if is_shift_name(l) {
        Ok((KeyModifiers { shift: true, ..m }, key))
    } else if is_primary_name(l) {
        if primary_is_super {
            Ok((KeyModifiers { super_key: true, ..m }, key))
        } else {
            Ok((KeyModifiers { control: true, ..m }, key))
        }
    } else if l.len() == 0 {
        Ok((m, key))
    } else if known_code_name(code_name(l)) {
        Ok((m, Some(code_name(l))))
    } else {
        Err(part)
    }
}

/// The parts taken left to right; the first unknown key stops the parse.
pub open spec fn fold_parts(parts: Seq<Seq<char>>, primary_is_super: bool) -> PartsResult
    decreases parts.len(),
{
    if parts.len() == 0 {
        Ok((no_modifiers(), None))
    } else {
        match fold_parts(parts.drop_last(), primary_is_super) {
            Err(p) => Err(p),
            Ok((m, k)) => apply_part(m, k, parts.last(), primary_is_super),
        }
    }
}

pub open spec fn plus_sep() -> spec_fn(char) -> bool {
    |c: char| c == '+'
}

/// What a hotkey setting means: `Ok` with its modifiers and key code,
/// `Err(Some(part))` for a part that is no known key, `Err(None)` when no key
/// is given.
pub open spec fn hotkey_meaning(s: Seq<char>, primary_is_super: bool) -> Result<
    (KeyModifiers, Seq<char>),
    Option<Seq<char>>,
> {
    match fold_parts(text::split_by(s, plus_sep()), primary_is_super) {
        Err(p) => Err(Some(p)),
        Ok((m, None)) => Err(None),
        Ok((m, Some(c))) => Ok((m, c)),
    }
}

fn ascii_upper_of(c: char) -> (res: char)
    ensures
        res == text::ascii_upper_char(c),
{
    if 'a' <= c && c <= 'z' {
        let b = (c as u8) - 32;
        b as char
    } else {
        c
    }
}

fn code_name_of(l: &Vec<char>) -> (res: Vec<char>)
    ensures
        res@ == code_name(l@),
{
    if text::chars_eq_str(l, "space") {
        text::chars_of("Space")
    } else if text::chars_eq_str(l, "enter") || text::chars_eq_str(l, "return") {
        text::chars_of("Enter")
    } else if text::chars_eq_str(l, "tab") {
        text::chars_of("Tab")
    } else if text::chars_eq_str(l, "esc") || text::chars_eq_str(l, "escape") {
        text::chars_of("Escape")
    } else if text::chars_eq_str(l, "fn") || text::chars_eq_str(l, "function") {
        text::chars_of("Fn")
    } else if l.len() == 1 && (('a' <= l[0] && l[0] <= 'z') || ('A' <= l[0] && l[0] <= 'Z')) {
        let mut v = text::chars_of("Key");
        v.push(ascii_upper_of(l[0]));
        v
    } else if l.len() == 1 && ('0' <= l[0] && l[0] <= '9') {
        let mut v = text::chars_of("Digit");
        v.push(l[0]);
        v
    } else {
        l.clone()
    }
}

/// One part applied to the modifiers and key gathered so far.
fn apply_part_exec(
    m: KeyModifiers,
    key: Option<Vec<char>>,
    raw: &Vec<char>,
    primary_is_super: bool,
) -> (res: Result<(KeyModifiers, Option<Vec<char>>), Vec<char>>)
    ensures
        acc_view(res) == apply_part(m, opt_view(key), raw@, primary_is_super),
{
    let part = text::trim_chars(raw);
    let l = text::ascii_lower_chars(&part);
    if text::chars_eq_str(&l, "cmd") || text::chars_eq_str(&l, "command") || text::chars_eq_str(
        &l,
        "meta",
    ) || text::chars_eq_str(&l, "super") || text::chars_eq_str(&l, "win") {
        Ok((KeyModifiers { super_key: true, ..m }, key))
    } else if text::chars_eq_str(&l, "ctrl") || text::chars_eq_str(&l, "control") {
        Ok((KeyModifiers { control: true, ..m }, key))
    } else if text::chars_eq_str(&l, "alt") || text::chars_eq_str(&l, "option")
        || text::chars_eq_str(&l, "opt") {
        Ok((KeyModifiers { alt: true, ..m }, key))
    } else if text::chars_eq_str(&l, "shift") {
        Ok((KeyModifiers { shift: true, ..m }, key))
    } else if text::chars_eq_str(&l, "cmdorctrl") {
        if primary_is_super {
            Ok((KeyModifiers { super_key: true, ..m }, key))
        } else {
            Ok((KeyModifiers { control: true, ..m }, key))
        }
    } else if l.len() == 0 {
        Ok((m, key))
    } else {
        let name = code_name_of(&l);
        let name_str = text::string_from_chars(&name);
        if code_name_is_known(name_str.as_str()) {
            Ok((m, Some(name)))
        } else {
            Err(part)
        }
    }
}

pub open spec fn opt_view(k: Option<Vec<char>>) -> Option<Seq<char>> {
    match k {
        Some(v) => Some(v@),
        None => None,
    }
}

/// Parses a hotkey setting: `+`-separated parts, each trimmed and read
/// without regard to ASCII case. `cmd`/`command`/`meta`/`super`/`win`,
/// `ctrl`/`control`, `alt`/`option`/`opt`, `shift` and `cmdorctrl` set
/// modifiers (`cmdorctrl` is the super key when `primary_is_super`, else
/// control); `space`, `enter`/`return`, `tab`, `esc`/`escape`, `fn`/`function`,
/// single letters and single digits name keys, any other part is taken as a
/// code name as it stands (lower-cased). The last key given wins; empty
/// parts are skipped.
pub fn parse_hotkey(s: &str, primary_is_super: bool) -> (res: Result<Hotkey, HotkeyError>)
    ensures
        match (res, hotkey_meaning(s@, primary_is_super)) {
            (Ok(h), Ok((m, c))) => h.modifiers == m && h.code@ == c,
            (Err(HotkeyError::UnknownKey(p)), Err(Some(q))) => p@ == q,
            (Err(HotkeyError::NoKey(t)), Err(None)) => t@ == s@,
            _ => false,
        },
{
    let v = text::chars_of(s);
    let mut acc: Result<(KeyModifiers, Option<Vec<char>>), Vec<char>> = Ok(
        (KeyModifiers { super_key: false, control: false, alt: false, shift: false }, None),
    );
    let mut cur: Vec<char> = Vec::new();
    let mut i: usize = 0;
    proof {
        assert(v@.take(0) =~= Seq::<char>::empty());
        assert(text::split_by(v@.take(0), plus_sep()).drop_last() =~= Seq::<Seq<char>>::empty());
    }
    while i < v.len()
        invariant
            i <= v.len(),
            v@ == s@,
            text::split_by(v@.take(i as int), plus_sep()).len() >= 1,
            text::split_by(v@.take(i as int), plus_sep()).last() == cur@,
            acc_view(acc) == fold_parts(
                text::split_by(v@.take(i as int), plus_sep()).drop_last(),
                primary_is_super,
            ),
        decreases v.len() - i,
    {
        let c = v[i];
        let ghost p = text::split_by(v@.take(i as int), plus_sep());
        proof {
            assert(v@.take(i + 1).drop_last() =~= v@.take(i as int));
            assert(v@.take(i + 1).last() == c);
            assert(p.drop_last().push(p.last()) =~= p);
        }
        if c == '+' {
            acc = match acc {
                Ok((m, key)) => apply_part_exec(m, key, &cur, primary_is_super),
                Err(e) => Err(e),
            };
            cur = Vec::new();
            proof {
                let q = text::split_by(v@.take(i + 1), plus_sep());
                assert(q == p.push(Seq::<char>::empty()));
                assert(q.drop_last() =~= p);
                assert(cur@ =~= Seq::<char>::empty());
            }
        } else {
            cur.push(c);
            proof {
                let q = text::split_by(v@.take(i + 1), plus_sep());
                assert(q == p.update(p.len() - 1, p.last().push(c)));
                assert(q.drop_last() =~= p.drop_last());
            }
        }
        i = i + 1;
    }
    let ghost p = text::split_by(v@.take(i as int), plus_sep());
    proof {
        assert(v@.take(i as int) =~= v@);
        assert(p.drop_last().push(p.last()) =~= p);
    }
    let fin = match acc {
        Ok((m, key)) => apply_part_exec(m, key, &cur, primary_is_super),
        Err(e) => Err(e),
    };
    match fin {
        Ok((m2, k2)) => match k2 {
            Some(code) => Ok(Hotkey { modifiers: m2, code: text::string_from_chars(&code) }),
            None => Err(HotkeyError::NoKey(text::owned(s))),
        },
        Err(part) => Err(HotkeyError::UnknownKey(text::string_from_chars(&part))),
    }
}

pub open spec fn acc_view(acc: Result<(KeyModifiers, Option<Vec<char>>), Vec<char>>) -> PartsResult {
    match acc {
        Ok((m, k)) => Ok((m, opt_view(k))),
        Err(p) => Err(p@),
    }
}

pub open spec fn lower_parts(parts: Seq<Seq<char>>) -> Seq<Seq<char>> {
    parts.map_values(|p: Seq<char>| text::ascii_lower(p))
}

pub open spec fn lower_err(r: PartsResult) -> PartsResult {
    match r {
        Ok(x) => Ok(x),
        Err(p) => Err(text::ascii_lower(p)),
    }
}

proof fn lemma_split_lower(s: Seq<char>)
    ensures
        text::split_by(text::ascii_lower(s), plus_sep()) == lower_parts(
            text::split_by(s, plus_sep()),
        ),
    decreases s.len(),
{
    let e = Seq::<char>::empty();
    if s.len() == 0 {
        assert(text::ascii_lower(s) =~= e);
        assert(text::ascii_lower(e) =~= e);
        assert(lower_parts(seq![e]) =~= seq![e]);
    } else {
        let ls = text::ascii_lower(s);
        assert(ls.drop_last() =~= text::ascii_lower(s.drop_last()));
        lemma_split_lower(s.drop_last());
        text::lemma_lower_char(s.last());
        text::lemma_split_nonempty(s.drop_last(), plus_sep());
        let p = text::split_by(s.drop_last(), plus_sep());
        if s.last() == '+' {
            assert(text::ascii_lower(e) =~= e);
            assert(lower_parts(p.push(e)) =~= lower_parts(p).push(e));
        } else {
            let q = p.update(p.len() - 1, p.last().push(s.last()));
            assert(text::ascii_lower(p.last().push(s.last())) =~= text::ascii_lower(p.last()).push(
                text::ascii_lower_char(s.last()),
            ));
            assert(lower_parts(q) =~= lower_parts(p).update(
                p.len() - 1,
                lower_parts(p).last().push(ls.last()),
            ));
        }
    }
}

proof fn lemma_apply_part_lower(
    m: KeyModifiers,
    key: Option<Seq<char>>,
    raw: Seq<char>,
    primary_is_super: bool,
)
    ensures
        apply_part(m, key, text::ascii_lower(raw), primary_is_super) == lower_err(
            apply_part(m, key, raw, primary_is_super),
        ),
{
    text::lemma_trim_lower(raw);
    text::lemma_lower_idempotent(text::trim(raw));
}

proof fn lemma_fold_lower(parts: Seq<Seq<char>>, primary_is_super: bool)
    ensures
        fold_parts(lower_parts(parts), primary_is_super) == lower_err(
            fold_parts(parts, primary_is_super),
        ),
    decreases parts.len(),
{
    if parts.len() > 0 {
        assert(lower_parts(parts).drop_last() =~= lower_parts(parts.drop_last()));
        lemma_fold_lower(parts.drop_last(), primary_is_super);
        match fold_parts(parts.drop_last(), primary_is_super) {
            Ok((m, k)) => {
                lemma_apply_part_lower(m, k, parts.last(), primary_is_super);
            },
            Err(p) => {},
        }
    }
}

/// Hotkey settings are read without regard to ASCII case: folding the case
/// of a setting gives the same modifiers and key, and an unknown part is
/// reported folded.
pub proof fn law_hotkey_ignores_case(s: Seq<char>, primary_is_super: bool)
    ensures
        hotkey_meaning(text::ascii_lower(s), primary_is_super) == match hotkey_meaning(
            s,
            primary_is_super,
        ) {
            Ok(x) => Ok(x),
            Err(None) => Err(None),
            Err(Some(p)) => Err(Some(text::ascii_lower(p))),
        },
{
    lemma_split_lower(s);
    lemma_fold_lower(text::split_by(s, plus_sep()), primary_is_super);
}

/// Whether a `+`-separated part names a modifier.
pub open spec fn is_modifier_part(raw: Seq<char>) -> bool {
    let l = text::ascii_lower(text::trim(raw));
    is_super_name(l) || is_control_name(l) || is_alt_name(l) || is_shift_name(l) || is_primary_name(
        l,
    )
}

proof fn lemma_fold_trim_equal(p: Seq<Seq<char>>, q: Seq<Seq<char>>, primary_is_super: bool)
    requires
        p.len() == q.len(),
        forall|i: int| 0 <= i < p.len() ==> text::trim(#[trigger] p[i]) == text::trim(q[i]),
    ensures
        fold_parts(p, primary_is_super) == fold_parts(q, primary_is_super),
    decreases p.len(),
{
    if p.len() > 0 {
        assert forall|i: int| 0 <= i < p.drop_last().len() implies text::trim(
            #[trigger] p.drop_last()[i],
        ) == text::trim(q.drop_last()[i]) by {
            assert(p.drop_last()[i] == p[i]);
            assert(q.drop_last()[i] == q[i]);
        }
        lemma_fold_trim_equal(p.drop_last(), q.drop_last(), primary_is_super);
        assert(text::trim(p.last()) == text::trim(q.last()));
    }
}

proof fn lemma_fold_extend(p1: Seq<Seq<char>>, p2: Seq<Seq<char>>, q: Seq<Seq<char>>, primary_is_super: bool)
    requires
        fold_parts(p1, primary_is_super) == fold_parts(p2, primary_is_super),
    ensures
        fold_parts(p1 + q, primary_is_super) == fold_parts(p2 + q, primary_is_super),
    decreases q.len(),
{
    if q.len() == 0 {
        assert(p1 + q =~= p1);
        assert(p2 + q =~= p2);
    } else {
        lemma_fold_extend(p1, p2, q.drop_last(), primary_is_super);
        assert((p1 + q).drop_last() =~= p1 + q.drop_last());
        assert((p2 + q).drop_last() =~= p2 + q.drop_last());
        assert((p1 + q).last() == q.last());
        assert((p2 + q).last() == q.last());
    }
}

proof fn lemma_fold_swap(a: Seq<Seq<char>>, m: Seq<char>, x: Seq<char>, primary_is_super: bool)
    requires
        is_modifier_part(m),
    ensures
        fold_parts(a + seq![m, x], primary_is_super) == fold_parts(a + seq![x, m], primary_is_super),
{
    let p = a + seq![m, x];
    let q = a + seq![x, m];
    assert(p.drop_last() =~= a.push(m));
    assert(q.drop_last() =~= a.push(x));
    assert(a.push(m).drop_last() =~= a);
    assert(a.push(x).drop_last() =~= a);
    assert(p.last() == x);
    assert(q.last() == m);
    assert(a.push(m).last() == m);
    assert(a.push(x).last() == x);
    let ps = primary_is_super;
    assert(fold_parts(a.push(m), ps) == match fold_parts(a, ps) {
        Err(e) => Err(e),
        Ok((md, k)) => apply_part(md, k, m, ps),
    });
    assert(fold_parts(a.push(x), ps) == match fold_parts(a, ps) {
        Err(e) => Err(e),
        Ok((md, k)) => apply_part(md, k, x, ps),
    });
    assert(fold_parts(p, ps) == match fold_parts(a.push(m), ps) {
        Err(e) => Err(e),
        Ok((md, k)) => apply_part(md, k, x, ps),
    });
    assert(fold_parts(q, ps) == match fold_parts(a.push(x), ps) {
        Err(e) => Err(e),
        Ok((md, k)) => apply_part(md, k, m, ps),
    });
}

/// Spacing around the `+`-separated parts does not matter: two settings
/// whose parts agree once each is trimmed mean the same.
pub proof fn law_hotkey_ignores_spacing(s: Seq<char>, t: Seq<char>, primary_is_super: bool)
    requires
        text::split_by(s, plus_sep()).len() == text::split_by(t, plus_sep()).len(),
        forall|i: int|
            0 <= i < text::split_by(s, plus_sep()).len() ==> text::trim(
                #[trigger] text::split_by(s, plus_sep())[i],
            ) == text::trim(text::split_by(t, plus_sep())[i]),
    ensures
        hotkey_meaning(s, primary_is_super) == hotkey_meaning(t, primary_is_super),
{
    lemma_fold_trim_equal(text::split_by(s, plus_sep()), text::split_by(t, plus_sep()), primary_is_super);
}

/// Where a modifier stands does not matter: moving a modifier part one place
/// along (the other parts keeping their order) leaves the meaning unchanged,
/// so by repeated moves modifiers may stand anywhere.
pub proof fn law_hotkey_modifier_order(
    s: Seq<char>,
    t: Seq<char>,
    primary_is_super: bool,
    before: Seq<Seq<char>>,
    modifier: Seq<char>,
    other: Seq<char>,
    after: Seq<Seq<char>>,
)
    requires
        text::split_by(s, plus_sep()) == before + seq![modifier, other] + after,
        text::split_by(t, plus_sep()) == before + seq![other, modifier] + after,
        is_modifier_part(modifier),
    ensures
        hotkey_meaning(s, primary_is_super) == hotkey_meaning(t, primary_is_super),
{
    lemma_fold_swap(before, modifier, other, primary_is_super);
    lemma_fold_extend(before + seq![modifier, other], before + seq![other, modifier], after, primary_is_super);
}

/// `s` with one more `+`-separated part `w` after it.
pub open spec fn with_part(s: Seq<char>, w: Seq<char>) -> Seq<char> {
    s + seq!['+'] + w
}

/// A meaning with `f` applied to its modifiers; errors stay as they are.
pub open spec fn map_modifiers(
    r: Result<(KeyModifiers, Seq<char>), Option<Seq<char>>>,
    f: spec_fn(KeyModifiers) -> KeyModifiers,
) -> Result<(KeyModifiers, Seq<char>), Option<Seq<char>>> {
    match r {
        Ok((m, c)) => Ok((f(m), c)),
        Err(e) => Err(e),
    }
}

proof fn lemma_split_with_part(s: Seq<char>, w: Seq<char>)
    requires
        forall|k: int| 0 <= k < w.len() ==> w[k] != '+',
    ensures
        text::split_by(with_part(s, w), plus_sep()) == text::split_by(s, plus_sep()).push(w),
    decreases w.len(),
{
    let x = with_part(s, w);
    let p = text::split_by(s, plus_sep());
    if w.len() == 0 {
        assert(x =~= s.push('+'));
        assert(x.drop_last() =~= s);
        assert(x.last() == '+');
        assert((plus_sep())(x.last()));
        assert(w =~= Seq::<char>::empty());
        assert(text::split_by(x, plus_sep()) == text::split_by(x.drop_last(), plus_sep()).push(
            Seq::<char>::empty(),
        ));
    } else {
        let w0 = w.drop_last();
        lemma_split_with_part(s, w0);
        assert(x.drop_last() =~= with_part(s, w0));
        assert(w[w.len() - 1] != '+');
        assert(x.last() == w.last());
        assert(!(plus_sep())(x.last()));
        assert(w0.push(w.last()) =~= w);
        let q = p.push(w0);
        assert(q.len() == p.len() + 1);
        assert(q.last() == w0);
        assert(q.update(q.len() - 1, q.last().push(w.last())) =~= p.push(w));
        assert(text::split_by(x, plus_sep()) == q.update(q.len() - 1, q.last().push(x.last())));
    }
}

/// Each modifier name sets exactly its own modifier: appending a part that
/// reads (trimmed, in any ASCII case) `cmd`, `command`, `meta`, `super` or
/// `win` adds the super key; `ctrl` or `control` adds control; `alt`,
/// `option` or `opt` adds alt; `shift` adds shift; `cmdorctrl` adds the
/// super key when `primary_is_super` and control otherwise. The key and the
/// other modifiers stay as they were, and a rejected setting stays rejected
/// for the same reason.
pub proof fn law_each_modifier_name_sets_its_modifier(s: Seq<char>, w: Seq<char>, primary_is_super: bool)
    requires
        forall|k: int| 0 <= k < w.len() ==> w[k] != '+',
    ensures
        ({
            let l = text::ascii_lower(text::trim(w));
            l == "cmd"@ || l == "command"@ || l == "meta"@ || l == "super"@ || l == "win"@
        }) ==> hotkey_meaning(with_part(s, w), primary_is_super) == map_modifiers(
            hotkey_meaning(s, primary_is_super),
            |m: KeyModifiers| KeyModifiers { super_key: true, ..m },
        ),
        ({
            let l = text::ascii_lower(text::trim(w));
            l == "ctrl"@ || l == "control"@
        }) ==> hotkey_meaning(with_part(s, w), primary_is_super) == map_modifiers(
            hotkey_meaning(s, primary_is_super),
            |m: KeyModifiers| KeyModifiers { control: true, ..m },
        ),
        ({
            let l = text::ascii_lower(text::trim(w));
            l == "alt"@ || l == "option"@ || l == "opt"@
        }) ==> hotkey_meaning(with_part(s, w), primary_is_super) == map_modifiers(
            hotkey_meaning(s, primary_is_super),
            |m: KeyModifiers| KeyModifiers { alt: true, ..m },
        ),
        text::ascii_lower(text::trim(w)) == "shift"@ ==> hotkey_meaning(
            with_part(s, w),
            primary_is_super,
        ) == map_modifiers(
            hotkey_meaning(s, primary_is_super),
            |m: KeyModifiers| KeyModifiers { shift: true, ..m },
        ),
        text::ascii_lower(text::trim(w)) == "cmdorctrl"@ ==> hotkey_meaning(
            with_part(s, w),
            primary_is_super,
        ) == map_modifiers(
            hotkey_meaning(s, primary_is_super),
            |m: KeyModifiers|
                if primary_is_super {
                    KeyModifiers { super_key: true, ..m }
                } else {
                    KeyModifiers { control: true, ..m }
                },
        ),
{
    reveal_strlit("cmd");
    reveal_strlit("command");
    reveal_strlit("meta");
    reveal_strlit("super");
    reveal_strlit("win");
    reveal_strlit("ctrl");
    reveal_strlit("control");
    reveal_strlit("alt");
    reveal_strlit("option");
    reveal_strlit("opt");
    reveal_strlit("shift");
    reveal_strlit("cmdorctrl");
    // Names of the same length differ in some character.
    assert("ctrl"@[0] != "meta"@[0]);
    assert("control"@[2] != "command"@[2]);
    assert("alt"@[0] != "cmd"@[0] && "alt"@[0] != "win"@[0]);
    assert("opt"@[0] != "cmd"@[0] && "opt"@[0] != "win"@[0] && "opt"@[0] != "alt"@[0]);
    assert("super"@[1] != "shift"@[1]);
    lemma_split_with_part(s, w);
    let p = text::split_by(s, plus_sep());
    assert(p.push(w).drop_last() =~= p);
    assert(p.push(w).last() == w);
}

} // verus!
