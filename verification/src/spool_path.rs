use vstd::prelude::*;
use vstd::assert_by_contradiction;
use crate::ident::{is_ident_char, hex_digit, uuid_text_spec};
use crate::ident::{lemma_uuid_text_len, lemma_uuid_text_chars, lemma_uuid_text_injective};

verus! {

/// A hexadecimal digit as percent-escapes allow it: either case.
pub open spec fn is_pct_hex(c: char) -> bool {
    ('0' <= c && c <= '9') || ('a' <= c && c <= 'f') || ('A' <= c && c <= 'F')
}

/// The numeric value of a percent-escape hexadecimal digit.
pub open spec fn pct_hex_val(c: char) -> int {
    if '0' <= c && c <= '9' {
        c as int - 48
    } else if 'a' <= c && c <= 'f' {
        c as int - 87
    } else {
        c as int - 55
    }
}

/// Percent-decoding of a character sequence. Every `%` must introduce two
/// hexadecimal digits naming a 7-bit character; anything else fails.
pub open spec fn pct_decoded(s: Seq<char>) -> Option<Seq<char>>
    decreases s.len(),
{
    if s.len() == 0 {
        Some(Seq::empty())
    } else if s[0] == '%' {
        if s.len() >= 3 && is_pct_hex(s[1]) && is_pct_hex(s[2]) && pct_hex_val(s[1]) * 16
            + pct_hex_val(s[2]) < 128 {
            match pct_decoded(s.subrange(3, s.len() as int)) {
                Some(rest) => Some(
                    seq![(((pct_hex_val(s[1]) * 16 + pct_hex_val(s[2])) as u8) as char)] + rest,
                ),
                None => None,
            }
        } else {
            None
        }
    } else {
        match pct_decoded(s.subrange(1, s.len() as int)) {
            Some(rest) => Some(seq![s[0]] + rest),
            None => None,
        }
    }
}

/// A complete `..` path segment starts at position `i`.
pub open spec fn dotdot_at(s: Seq<char>, i: int) -> bool {
    &&& 0 <= i
    &&& i + 2 <= s.len()
    &&& s[i] == '.'
    &&& s[i + 1] == '.'
    &&& (i == 0 || s[i - 1] == '/')
    &&& (i + 2 == s.len() || s[i + 2] == '/')
}

pub open spec fn has_dotdot_segment(s: Seq<char>) -> bool {
    exists|i: int| dotdot_at(s, i)
}

/// A relative path that stays below the directory it is resolved against:
/// non-empty, not absolute, and free of parent-directory segments.
pub open spec fn is_safe_path(s: Seq<char>) -> bool {
    s.len() > 0 && s[0] != '/' && !has_dotdot_segment(s)
}

/// A request path the read side accepts: it percent-decodes cleanly, and
/// both its raw and its decoded form are safe relative paths.
pub open spec fn path_allowed(raw: Seq<char>) -> bool {
    &&& pct_decoded(raw) is Some
    &&& is_safe_path(raw)
    &&& is_safe_path(pct_decoded(raw).unwrap())
}

/// The spool file name a stored item gets: its identifier plus the fixed
/// extension.
pub open spec fn spool_file_name_spec(id: Seq<char>) -> Seq<char> {
    id + ".json"@
}

/// The full path of a directory entry: the directory, one separator, the
/// relative name.
pub open spec fn joined_path_spec(dir: Seq<char>, rel: Seq<char>) -> Seq<char> {
    dir + "/"@ + rel
}

/// The numeric value of a percent-escape digit, or nothing.
fn pct_hex_val_exec(c: char) -> (r: Option<u8>)
    ensures
        r is Some <==> is_pct_hex(c),
        r is Some ==> r.unwrap() as int == pct_hex_val(c),
{
    let v = c as u32;
    if 48 <= v && v <= 57 {
        Some((v - 48) as u8)
    } else if 97 <= v && v <= 102 {
        Some((v - 87) as u8)
    } else if 65 <= v && v <= 70 {
        Some((v - 55) as u8)
    } else {
        None
    }
}

/// Percent-decodes a request path; fails exactly where [`pct_decoded`] does.
pub fn percent_decode(s: &str) -> (r: Option<String>)
    ensures
        match r {
            Some(d) => pct_decoded(s@) == Some(d@),
            None => pct_decoded(s@) is None,
        },
{
    let n = s.unicode_len();
    let mut out = String::new();
    let mut i: usize = 0;
    proof {
        assert(s@.subrange(0, n as int) =~= s@);
        match pct_decoded(s@) {
            Some(r) => {
                assert(out@ + r =~= r);
            },
            None => {},
        }
    }
    while i < n
        invariant
            i <= n,
            n == s@.len(),
            pct_decoded(s@) == match pct_decoded(s@.subrange(i as int, n as int)) {
                Some(rest) => Some(out@ + rest),
                None => None::<Seq<char>>,
            },
        decreases n - i,
    {
        let ghost suf = s@.subrange(i as int, n as int);
        let c = s.get_char(i);
        assert(suf[0] == c);
        if c == '%' {
            if n - i < 3 {
                proof {
                    assert(pct_decoded(suf) is None);
                }
                return None;
            }
            let h1 = match pct_hex_val_exec(s.get_char(i + 1)) {
                Some(v) => v,
                None => {
                    proof {
                        assert(suf[1] == s@[i + 1]);
                        assert(pct_decoded(suf) is None);
                    }
                    return None;
                },
            };
            let h2 = match pct_hex_val_exec(s.get_char(i + 2)) {
                Some(v) => v,
                None => {
                    proof {
                        assert(suf[1] == s@[i + 1]);
                        assert(suf[2] == s@[i + 2]);
                        assert(pct_decoded(suf) is None);
                    }
                    return None;
                },
            };
            let val: u8 = h1 * 16 + h2;
            if val >= 128 {
                proof {
                    assert(suf[1] == s@[i + 1]);
                    assert(suf[2] == s@[i + 2]);
                    assert(pct_decoded(suf) is None);
                }
                return None;
            }
            let dc = val as char;
            let ghost prev = out@;
            crate::ident::push_char(&mut out, dc);
            proof {
                assert(suf[1] == s@[i + 1]);
                assert(suf[2] == s@[i + 2]);
                let suf2 = s@.subrange(i + 3, n as int);
                assert(suf.subrange(3, suf.len() as int) =~= suf2);
                assert(dc == ((pct_hex_val(suf[1]) * 16 + pct_hex_val(suf[2])) as u8) as char);
                match pct_decoded(suf2) {
                    Some(rest) => {
                        assert(pct_decoded(suf) == Some(seq![dc] + rest));
                        assert(prev + (seq![dc] + rest) =~= prev.push(dc) + rest);
                    },
                    None => {
                        assert(pct_decoded(suf) is None);
                    },
                }
            }
            i = i + 3;
        } else {
            let ghost prev = out@;
            crate::ident::push_char(&mut out, c);
            proof {
                let suf1 = s@.subrange(i + 1, n as int);
                assert(suf.subrange(1, suf.len() as int) =~= suf1);
                match pct_decoded(suf1) {
                    Some(rest) => {
                        assert(pct_decoded(suf) == Some(seq![c] + rest));
                        assert(prev + (seq![c] + rest) =~= prev.push(c) + rest);
                    },
                    None => {
                        assert(pct_decoded(suf) is None);
                    },
                }
            }
            i = i + 1;
        }
    }
    proof {
        assert(s@.subrange(n as int, n as int) =~= Seq::<char>::empty());
        assert(out@ + Seq::<char>::empty() =~= out@);
    }
    Some(out)
}

/// Decides [`is_safe_path`] for a request path.
pub fn is_safe_rel_path(s: &str) -> (b: bool)
    ensures
        b == is_safe_path(s@),
{
    let n = s.unicode_len();
    if n == 0 {
        return false;
    }
    if s.get_char(0) == '/' {
        return false;
    }
    let mut i: usize = 0;
    while n - i >= 2
        invariant
            i <= n,
            n == s@.len(),
            forall|j: int| 0 <= j < i ==> !dotdot_at(s@, j),
        decreases n - i,
    {
        let hit = s.get_char(i) == '.' && s.get_char(i + 1) == '.' && (i == 0 || s.get_char(i - 1)
            == '/') && (i + 2 == n || s.get_char(i + 2) == '/');
        if hit {
            assert(dotdot_at(s@, i as int));
            return false;
        }
        assert(!dotdot_at(s@, i as int));
        i = i + 1;
    }
    proof {
        assert forall|j: int| !dotdot_at(s@, j) by {
            if 0 <= j < i {
            } else if j >= i {
                assert(j + 2 > n);
            }
        }
    }
    true
}

/// Decides [`path_allowed`]: the read side's whole admission check.
pub fn check_request_path(raw: &str) -> (ok: bool)
    ensures
        ok == path_allowed(raw@),
{
    match percent_decode(raw) {
        None => false,
        Some(d) => {
            let a = is_safe_rel_path(raw);
            let b = is_safe_rel_path(d.as_str());
            a && b
        },
    }
}

/// Appends the fixed spool extension to an identifier.
pub fn spool_file_name(id: &str) -> (name: String)
    ensures
        name@ == spool_file_name_spec(id@),
{
    let mut name = id.to_owned();
    name.append(".json");
    name
}

/// Joins the spool directory with a relative entry name, inserting a single
/// separator between them.
pub fn join_under(dir: &str, rel: &str) -> (full: String)
    ensures
        full@ == joined_path_spec(dir@, rel@),
{
    let mut full = dir.to_owned();
    full.append("/");
    full.append(rel);
    full
}

/// An identifier character is never a percent sign, a separator, or a dot.
proof fn lemma_ident_char_plain(c: char)
    requires
        is_ident_char(c),
    ensures
        c != '%' && c != '/' && c != '.',
{
    if c != '-' {
        let n = choose|n: int| 0 <= n < 16 && c == hex_digit(n);
        assert(c == hex_digit(n));
    }
}

/// A sequence without percent signs decodes to itself.
proof fn lemma_pct_identity(s: Seq<char>)
    requires
        forall|i: int| 0 <= i < s.len() ==> s[i] != '%',
    ensures
        pct_decoded(s) == Some(s),
    decreases s.len(),
{
    if s.len() == 0 {
        assert(s =~= Seq::<char>::empty());
    } else {
        let rest = s.subrange(1, s.len() as int);
        assert(forall|i: int| 0 <= i < rest.len() ==> rest[i] == s[i + 1]);
        lemma_pct_identity(rest);
        assert(seq![s[0]] + rest =~= s);
    }
}

/// The file name assigned to a freshly stored item passes the read-path
/// validator: the path written by a create is exactly the path a read of the
/// returned identifier resolves to.
pub proof fn lemma_fresh_name_readable(bits: u128)
    ensures
        path_allowed(spool_file_name_spec(uuid_text_spec(bits))),
        spool_file_name_spec(uuid_text_spec(bits)).len() == 41,
{
    let id = uuid_text_spec(bits);
    let name = spool_file_name_spec(id);
    reveal_strlit(".json");
    lemma_uuid_text_len(bits);
    lemma_uuid_text_chars(bits);
    assert(name.len() == 41);
    assert forall|i: int| 0 <= i < name.len() implies name[i] != '%' && name[i] != '/' by {
        if i < 36 {
            assert(name[i] == id[i]);
            assert(is_ident_char(id[i]));
            lemma_ident_char_plain(id[i]);
        } else {
            assert(name[i] == (".json"@)[i - 36]);
        }
    }
    lemma_pct_identity(name);
    assert(name[0] == id[0]);
    assert(is_ident_char(id[0]));
    lemma_ident_char_plain(id[0]);
    assert forall|i: int| !dotdot_at(name, i) by {
        if 0 <= i && i + 2 <= name.len() {
            if i != 0 {
                assert(name[i - 1] != '/');
            }
            if i + 2 != name.len() {
                assert(name[i + 2] != '/');
            }
        }
    }
    assert(is_safe_path(name));
    assert(pct_decoded(name).unwrap() == name);
}

/// A full path that lies strictly below `dir`: it extends `dir` by one
/// separator and a safe relative remainder, so it can name nothing outside
/// the tree rooted at `dir`.
pub open spec fn stays_under(full: Seq<char>, dir: Seq<char>) -> bool {
    &&& full.len() > dir.len() + 1
    &&& full.subrange(0, dir.len() as int) == dir
    &&& full[dir.len() as int] == '/'
    &&& is_safe_path(full.subrange(dir.len() as int + 1, full.len() as int))
}

/// Every path the read side resolves stays below the spool directory: an
/// admitted request path can never name a file outside it.
pub proof fn lemma_allowed_path_stays_under(dir: Seq<char>, raw: Seq<char>)
    requires
        path_allowed(raw),
    ensures
        stays_under(joined_path_spec(dir, raw), dir),
{
    reveal_strlit("/");
    let full = joined_path_spec(dir, raw);
    assert(full.subrange(0, dir.len() as int) =~= dir);
    assert(full[dir.len() as int] == '/');
    assert(full.subrange(dir.len() as int + 1, full.len() as int) =~= raw);
}

/// Two creates that drew distinct identifier values write to distinct
/// target paths below the same spool directory: neither can overwrite or
/// truncate the other's file.
pub proof fn lemma_distinct_ids_distinct_paths(dir: Seq<char>, a: u128, b: u128)
    requires
        a != b,
    ensures
        joined_path_spec(dir, spool_file_name_spec(uuid_text_spec(a))) != joined_path_spec(
            dir,
            spool_file_name_spec(uuid_text_spec(b)),
        ),
{
    lemma_uuid_text_injective(a, b);
    lemma_uuid_text_len(a);
    lemma_uuid_text_len(b);
    let ia = uuid_text_spec(a);
    let ib = uuid_text_spec(b);
    let ja = joined_path_spec(dir, spool_file_name_spec(ia));
    let jb = joined_path_spec(dir, spool_file_name_spec(ib));
    reveal_strlit("/");
    assert_by_contradiction!(ja != jb, {
        let d = dir.len() as int;
        assert forall|i: int| 0 <= i < 36 implies ia[i] == ib[i] by {
            assert(ja[d + 1 + i] == ia[i]);
            assert(jb[d + 1 + i] == ib[i]);
        }
        assert(ia =~= ib);
    });
}

} // verus!
