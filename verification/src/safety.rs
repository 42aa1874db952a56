//! Guards against writing into system folders, and sizes for people.

use vstd::prelude::*;
use vstd::arithmetic::div_mod::lemma_fundamental_div_mod;
use crate::error::{AppError, ErrorView};
use crate::text::{chars_of, decimal_string, digit_char, push_decimal, push_str, split_chars, split_on, string_of};

verus! {

/// The path begins at the root.
pub open spec fn rooted(s: Seq<char>) -> bool {
    s.len() > 0 && s[0] == '/'
}

/// The components kept from the pieces between slashes: empty pieces and
/// `.` are dropped, except a `.` that begins a relative path.
pub open spec fn kept_components(pieces: Seq<Seq<char>>, is_rooted: bool) -> Seq<Seq<char>>
    decreases pieces.len(),
{
    if pieces.len() == 0 {
        Seq::empty()
    } else {
        let prev = kept_components(pieces.drop_last(), is_rooted);
        let x = pieces.last();
        if x.len() > 0 && (x != seq!['.'] || (pieces.len() == 1 && !is_rooted)) {
            prev.push(x)
        } else {
            prev
        }
    }
}

/// The components of a path after its root, as `Path::components` reads them.
pub open spec fn path_components(s: Seq<char>) -> Seq<Seq<char>> {
    kept_components(split_on(s, '/'), rooted(s))
}

/// Two paths are equal as paths (`Path == Path`): both rooted or both not,
/// with the same components.
pub open spec fn same_path(a: Seq<char>, b: Seq<char>) -> bool {
    rooted(a) == rooted(b) && path_components(a) == path_components(b)
}

/// The operating system whose folders are guarded.
#[derive(Debug, Clone, Copy, PartialEq, Eq, Structural)]
pub enum TargetOs {
    Linux,
    MacOs,
    Windows,
    Other,
}

/// A path in slash form: on Windows a verbatim `\\?\` prefix is dropped
/// and backslashes are read as slashes; elsewhere the path as it is.
pub open spec fn os_form(c: Seq<char>, os: TargetOs) -> Seq<char> {
    if os == TargetOs::Windows {
        let e = if c.len() >= 4 && c.subrange(0, 4) == seq!['\\', '\\', '?', '\\'] {
            c.subrange(4, c.len() as int)
        } else {
            c
        };
        e.map_values(|ch: char| if ch == '\\' { '/' } else { ch })
    } else {
        c
    }
}

/// The folders that no output may go to, nor any folder directly under
/// them, in slash form: the root everywhere, and the system folders of the
/// operating system.
pub open spec fn fixed_protected(os: TargetOs) -> Seq<Seq<char>> {
    match os {
        TargetOs::Linux => seq!["/"@, "/bin"@, "/sbin"@, "/usr"@, "/etc"@, "/var"@, "/home"@, "/root"@],
        TargetOs::MacOs => seq![
            "/"@,
            "/System"@,
            "/Library"@,
            "/Users"@,
            "/Applications"@,
            "/bin"@,
            "/sbin"@,
            "/usr"@,
            "/etc"@,
            "/var"@,
        ],
        TargetOs::Windows => seq![
            "/"@,
            "C:/"@,
            "C:/Windows"@,
            "C:/Program Files"@,
            "C:/Program Files (x86)"@,
            "C:/Users"@,
        ],
        TargetOs::Other => seq!["/"@],
    }
}

/// `c` is the folder `p` or a folder directly under it.
pub open spec fn at_or_directly_under(c: Seq<char>, p: Seq<char>) -> bool {
    let cc = path_components(c);
    let pc = path_components(p);
    rooted(c) == rooted(p) && (cc == pc || (cc.len() == pc.len() + 1 && cc.take(pc.len() as int) == pc))
}

/// A path that no output may go to, whatever the home directory: one of
/// the fixed folders of the operating system, or a folder directly under one.
pub open spec fn system_protected(c: Seq<char>, os: TargetOs) -> bool {
    let list = fixed_protected(os);
    exists|i: int| 0 <= i < list.len() && at_or_directly_under(os_form(c, os), #[trigger] list[i])
}

/// A normalized path is protected: by the fixed folders, or as the home
/// directory itself (on Windows also a folder directly under it).
pub open spec fn protected_path(c: Seq<char>, home: Option<Seq<char>>, os: TargetOs) -> bool {
    system_protected(c, os) || (home matches Some(h) && (same_path(os_form(c, os), os_form(h, os)) || (os
        == TargetOs::Windows && at_or_directly_under(os_form(c, os), os_form(h, os)))))
}

/// The components of a path.
pub(crate) fn components(s: &str) -> (r: Vec<Vec<char>>)
    ensures
        r@.len() == path_components(s@).len(),
        forall|i: int| 0 <= i < r@.len() ==> #[trigger] r@[i]@ == path_components(s@)[i],
{
    let cs = chars_of(s);
    let is_rooted = cs.len() > 0 && cs[0] == '/';
    let pieces = split_chars(&cs, '/');
    let ghost ps = split_on(s@, '/');
    let mut out: Vec<Vec<char>> = Vec::new();
    let mut i: usize = 0;
    while i < pieces.len()
        invariant
            i <= pieces@.len(),
            pieces@.len() == ps.len(),
            forall|j: int| 0 <= j < pieces@.len() ==> #[trigger] pieces@[j]@ == ps[j],
            is_rooted == rooted(s@),
            out@.len() == kept_components(ps.take(i as int), is_rooted).len(),
            forall|k: int| 0 <= k < out@.len() ==> #[trigger] out@[k]@ == kept_components(ps.take(i as int), is_rooted)[k],
        decreases pieces@.len() - i,
    {
        proof {
            assert(ps.take(i + 1).drop_last() =~= ps.take(i as int));
            assert(ps.take(i + 1).last() == ps[i as int]);
        }
        let x = &pieces[i];
        let is_dot = x.len() == 1 && x[0] == '.';
        proof {
            if is_dot {
                assert(x@ =~= seq!['.']);
            }
            if x@ == seq!['.'] {
                assert(x@[0] == '.');
            }
        }
        if x.len() > 0 && (!is_dot || (i == 0 && !is_rooted)) {
            out.push(x.clone());
        }
        i += 1;
    }
    assert(ps.take(ps.len() as int) =~= ps);
    out
}

/// Whether two character vectors are equal.
fn chars_equal(a: &Vec<char>, b: &Vec<char>) -> (r: bool)
    ensures
        r == (a@ == b@),
{
    if a.len() != b.len() {
        return false;
    }
    let mut i: usize = 0;
    while i < a.len()
        invariant
            a@.len() == b@.len(),
            i <= a@.len(),
            forall|j: int| 0 <= j < i ==> a@[j] == b@[j],
        decreases a@.len() - i,
    {
        if a[i] != b[i] {
            return false;
        }
        i += 1;
    }
    assert(a@ =~= b@);
    true
}

/// Whether two paths are equal as paths.
fn paths_equal(a: &str, b: &str) -> (r: bool)
    ensures
        r == same_path(a@, b@),
{
    let ac = chars_of(a);
    let bc = chars_of(b);
    let ar = ac.len() > 0 && ac[0] == '/';
    let br = bc.len() > 0 && bc[0] == '/';
    if ar != br {
        return false;
    }
    let x = components(a);
    let y = components(b);
    let ghost px = path_components(a@);
    let ghost py = path_components(b@);
    if x.len() != y.len() {
        return false;
    }
    let mut i: usize = 0;
    while i < x.len()
        invariant
            x@.len() == y@.len(),
            px == path_components(a@),
            py == path_components(b@),
            rooted(a@) == rooted(b@),
            x@.len() == px.len(),
            y@.len() == py.len(),
            forall|k: int| 0 <= k < x@.len() ==> #[trigger] x@[k]@ == px[k],
            forall|k: int| 0 <= k < y@.len() ==> #[trigger] y@[k]@ == py[k],
            i <= x@.len(),
            forall|j: int| 0 <= j < i ==> px[j] == py[j],
        decreases x@.len() - i,
    {
        if !chars_equal(&x[i], &y[i]) {
            assert(px[i as int] != py[i as int]);
            return false;
        }
        i += 1;
    }
    assert(px =~= py);
    true
}

/// The user's home directory (`dirs::home_dir`), as text. It depends on
/// the environment of the process, so nothing is claimed of it.
#[verifier::external_body]
fn home_dir() -> Option<String> {
    match dirs::home_dir() {
        Some(p) => Some(p.to_string_lossy().into_owned()),
        None => None,
    }
}

/// Whether the first `n` components of two lists are equal.
fn prefix_equal(x: &Vec<Vec<char>>, y: &Vec<Vec<char>>, n: usize) -> (r: bool)
    requires
        n <= x@.len(),
        n <= y@.len(),
    ensures
        r == (forall|k: int| 0 <= k < n ==> x@[k]@ == y@[k]@),
{
    let mut i: usize = 0;
    while i < n
        invariant
            n <= x@.len(),
            n <= y@.len(),
            i <= n,
            forall|k: int| 0 <= k < i ==> x@[k]@ == y@[k]@,
        decreases n - i,
    {
        if !chars_equal(&x[i], &y[i]) {
            return false;
        }
        i += 1;
    }
    true
}

/// Whether `c` is the folder `p` or a folder directly under it.
fn at_or_under(c: &str, p: &str) -> (r: bool)
    ensures
        r == at_or_directly_under(c@, p@),
{
    let cc = chars_of(c);
    let pc = chars_of(p);
    let cr = cc.len() > 0 && cc[0] == '/';
    let pr = pc.len() > 0 && pc[0] == '/';
    if cr != pr {
        return false;
    }
    let x = components(c);
    let y = components(p);
    let ghost px = path_components(c@);
    let ghost py = path_components(p@);
    if x.len() == y.len() {
        let r = prefix_equal(&x, &y, y.len());
        proof {
            if r {
                assert forall|k: int| 0 <= k < px.len() implies px[k] == py[k] by {
                    assert(x@[k]@ == px[k] && y@[k]@ == py[k]);
                }
                assert(px =~= py);
            } else {
                let k = choose|k: int| 0 <= k < y@.len() && x@[k]@ != y@[k]@;
                assert(px[k] != py[k]);
            }
        }
        r
    } else if x.len() > 0 && x.len() - 1 == y.len() {
        let r = prefix_equal(&x, &y, y.len());
        proof {
            if r {
                assert forall|k: int| 0 <= k < py.len() implies px[k] == py[k] by {
                    assert(x@[k]@ == px[k] && y@[k]@ == py[k]);
                }
                assert(px.take(py.len() as int) =~= py);
            } else {
                let k = choose|k: int| 0 <= k < y@.len() && x@[k]@ != y@[k]@;
                assert(px.take(py.len() as int)[k] != py[k]);
            }
        }
        r
    } else {
        false
    }
}

/// A path in slash form (see `os_form`).
fn os_form_text(c: &str, os: TargetOs) -> (r: String)
    ensures
        r@ == os_form(c@, os),
{
    if os != TargetOs::Windows {
        return string_of(&chars_of(c));
    }
    let cs = chars_of(c);
    let start: usize = if cs.len() >= 4 && cs[0] == '\\' && cs[1] == '\\' && cs[2] == '?' && cs[3] == '\\' {
        4
    } else {
        0
    };
    let ghost e = if c@.len() >= 4 && c@.subrange(0, 4) == seq!['\\', '\\', '?', '\\'] {
        c@.subrange(4, c@.len() as int)
    } else {
        c@
    };
    proof {
        if start == 4 {
            assert(c@.subrange(0, 4) =~= seq!['\\', '\\', '?', '\\']);
        } else if c@.len() >= 4 {
            if c@.subrange(0, 4) == seq!['\\', '\\', '?', '\\'] {
                assert(c@.subrange(0, 4)[0] == c@[0]);
                assert(c@.subrange(0, 4)[1] == c@[1]);
                assert(c@.subrange(0, 4)[2] == c@[2]);
                assert(c@.subrange(0, 4)[3] == c@[3]);
            }
        }
        assert(e =~= c@.subrange(start as int, c@.len() as int));
    }
    let mut out: Vec<char> = Vec::new();
    let mut i: usize = start;
    while i < cs.len()
        invariant
            start <= i <= cs@.len(),
            cs@ == c@,
            e =~= c@.subrange(start as int, c@.len() as int),
            out@ =~= e.take(i - start).map_values(|ch: char| if ch == '\\' { '/' } else { ch }),
        decreases cs@.len() - i,
    {
        let ch = cs[i];
        proof {
            assert(e.take(i - start + 1) =~= e.take(i - start).push(ch));
        }
        if ch == '\\' {
            out.push('/');
        } else {
            out.push(ch);
        }
        i += 1;
    }
    assert(e.take(cs@.len() - start) =~= e);
    string_of(&out)
}

/// The fixed folders of an operating system, in slash form.
fn fixed_list(os: TargetOs) -> (r: Vec<&'static str>)
    ensures
        r@.len() == fixed_protected(os).len(),
        forall|i: int| 0 <= i < r@.len() ==> #[trigger] r@[i]@ == fixed_protected(os)[i],
{
    let mut r: Vec<&'static str> = Vec::new();
    r.push("/");
    match os {
        TargetOs::Linux => {
            r.push("/bin");
            r.push("/sbin");
            r.push("/usr");
            r.push("/etc");
            r.push("/var");
            r.push("/home");
            r.push("/root");
        },
        TargetOs::MacOs => {
            r.push("/System");
            r.push("/Library");
            r.push("/Users");
            r.push("/Applications");
            r.push("/bin");
            r.push("/sbin");
            r.push("/usr");
            r.push("/etc");
            r.push("/var");
        },
        TargetOs::Windows => {
            r.push("C:/");
            r.push("C:/Windows");
            r.push("C:/Program Files");
            r.push("C:/Program Files (x86)");
            r.push("C:/Users");
        },
        TargetOs::Other => {},
    }
    r
}

/// Whether a path is protected by the fixed folders of an operating system.
fn is_system_protected(canonical: &str, os: TargetOs) -> (r: bool)
    ensures
        r == system_protected(canonical@, os),
{
    let c = os_form_text(canonical, os);
    let list = fixed_list(os);
    let ghost fl = fixed_protected(os);
    let mut i: usize = 0;
    while i < list.len()
        invariant
            i <= list@.len(),
            list@.len() == fl.len(),
            fl == fixed_protected(os),
            c@ == os_form(canonical@, os),
            forall|k: int| 0 <= k < list@.len() ==> #[trigger] list@[k]@ == fl[k],
            forall|k: int| 0 <= k < i ==> !at_or_directly_under(c@, #[trigger] fl[k]),
        decreases list@.len() - i,
    {
        if at_or_under(c.as_str(), list[i]) {
            assert(at_or_directly_under(os_form(canonical@, os), fl[i as int]));
            return true;
        }
        i += 1;
    }
    false
}

/// Whether a normalized path is protected, given the home directory.
pub fn is_protected_with_home(canonical: &str, home: Option<&str>, os: TargetOs) -> (r: bool)
    ensures
        r == protected_path(canonical@, match home { Some(h) => Some(h@), None => None }, os),
{
    if is_system_protected(canonical, os) {
        return true;
    }
    match home {
        Some(h) => {
            let c = os_form_text(canonical, os);
            let hf = os_form_text(h, os);
            if paths_equal(c.as_str(), hf.as_str()) {
                return true;
            }
            os == TargetOs::Windows && at_or_under(c.as_str(), hf.as_str())
        },
        None => false,
    }
}

/// Whether a normalized path is protected: a fixed folder of the operating
/// system or a folder directly under one is, whatever the home directory;
/// so is the home directory that the environment names. The answer is the
/// protection rule for the home directory read from the environment.
pub fn is_protected_path(canonical: &str, os: TargetOs) -> (r: bool)
    ensures
        system_protected(canonical@, os) ==> r,
        exists|home: Option<Seq<char>>| r == #[trigger] protected_path(canonical@, home, os),
{
    let home = home_dir();
    match home {
        Some(h) => {
            let r = is_protected_with_home(canonical, Some(h.as_str()), os);
            assert(r == protected_path(canonical@, Some(h@), os));
            r
        },
        None => {
            let r = is_protected_with_home(canonical, None, os);
            assert(r == protected_path(canonical@, None, os));
            r
        },
    }
}

/// Refuses an output path whose normalized form is protected, given the
/// home directory; the error names the path as it was given.
pub fn check_output_path(path: &str, canonical: &str, home: Option<&str>, os: TargetOs) -> (r: Result<(), AppError>)
    ensures
        protected_path(canonical@, match home { Some(h) => Some(h@), None => None }, os) ==> (r matches Err(e)
            && e@ == ErrorView::ProtectedPath(path@)),
        !protected_path(canonical@, match home { Some(h) => Some(h@), None => None }, os) ==> r is Ok,
{
    if is_protected_with_home(canonical, home, os) {
        Err(AppError::ProtectedPath(path.to_owned()))
    } else {
        Ok(())
    }
}

/// Refuses an output path whose normalized form is protected, by the rule
/// for the home directory read from the environment; the error names the
/// path as it was given. A fixed folder, or one directly under it, is
/// always refused.
pub fn validate_output_path(path: &str, canonical: &str, os: TargetOs) -> (r: Result<(), AppError>)
    ensures
        r matches Err(e) ==> e@ == ErrorView::ProtectedPath(path@),
        system_protected(canonical@, os) ==> r is Err,
        exists|home: Option<Seq<char>>|
            (#[trigger] protected_path(canonical@, home, os)) == (r is Err),
{
    let home = home_dir();
    match home {
        Some(h) => {
            let r = check_output_path(path, canonical, Some(h.as_str()), os);
            assert(protected_path(canonical@, Some(h@), os) == (r is Err));
            r
        },
        None => {
            let r = check_output_path(path, canonical, None, os);
            assert(protected_path(canonical@, None, os) == (r is Err));
            r
        },
    }
}

/// `a / d` rounded to the nearest integer, a tie going to the even one.
pub open spec fn round_half_even(a: nat, d: nat) -> nat {
    let q = a / d;
    let r = a % d;
    if 2 * r > d {
        q + 1
    } else if 2 * r < d {
        q
    } else if q % 2 == 0 {
        q
    } else {
        q + 1
    }
}

/// The spacing of doubles around `n`, starting the search at `s`: the
/// smallest power of two (times `s`) below which `n` has 53 bits.
pub open spec fn spacing_from(n: nat, s: nat) -> nat
    decreases n - s,
{
    if s == 0 || n / s < 0x20_0000_0000_0000 {
        s
    } else {
        proof {
            lemma_fundamental_div_mod(n as int, s as int);
            assert(n >= 2 * s) by (nonlinear_arith)
                requires
                    n == s * (n / s) + n % s,
                    n % s >= 0,
                    n / s >= 0x20_0000_0000_0000,
                    s > 0,
            ;
        }
        spacing_from(n, 2 * s)
    }
}

/// The double nearest to `n` (as `n as f64` rounds, ties to even).
pub open spec fn nearest_double(n: nat) -> nat {
    let s = spacing_from(n, 1);
    s * round_half_even(n, s)
}

/// A number of tenths written with one decimal, as `{:.1}` writes it.
pub open spec fn one_decimal(t: nat) -> Seq<char> {
    decimal_string(t / 10) + seq!['.', digit_char(t % 10)]
}

/// `size` in units of `unit`, with one decimal, as `{:.1}` writes the
/// double quotient.
pub open spec fn scaled(size: nat, unit: nat) -> Seq<char> {
    one_decimal(round_half_even(nearest_double(size) * 10, unit))
}

/// A size in bytes for people: `B` below 1024, then `KB`, `MB` and `GB`
/// (powers of 1024) with one decimal.
pub open spec fn size_text(size: nat) -> Seq<char> {
    if size >= 0x4000_0000 {
        scaled(size, 0x4000_0000) + " GB"@
    } else if size >= 0x10_0000 {
        scaled(size, 0x10_0000) + " MB"@
    } else if size >= 0x400 {
        scaled(size, 0x400) + " KB"@
    } else {
        decimal_string(size) + " B"@
    }
}

/// `a / d` rounded half to even.
fn round_div(a: u128, d: u128) -> (r: u128)
    requires
        d > 0,
        a < 0x1_0000_0000_0000_0000_0000,
        d < 0x1_0000_0000_0000_0000_0000,
    ensures
        r == round_half_even(a as nat, d as nat),
        r <= a / d + 1,
{
    let q = a / d;
    let rem = a % d;
    assert(q <= a) by (nonlinear_arith)
        requires
            q == a / d,
            d > 0,
    ;
    if 2 * rem > d {
        q + 1
    } else if 2 * rem < d {
        q
    } else if q % 2 == 0 {
        q
    } else {
        q + 1
    }
}

/// The double nearest to `n`.
fn nearest_double_of(n: u64) -> (r: u128)
    ensures
        r == nearest_double(n as nat),
        r <= 0x2_0000_0000_0000_0000,
{
    let big: u128 = n as u128;
    let mut s: u128 = 1;
    while big / s >= 0x20_0000_0000_0000
        invariant
            s > 0,
            s <= big + 1,
            spacing_from(n as nat, s as nat) == spacing_from(n as nat, 1),
            big == n,
        decreases big - s,
    {
        proof {
            lemma_fundamental_div_mod(big as int, s as int);
            assert(big >= 2 * s) by (nonlinear_arith)
                requires
                    big == s * (big / s) + big % s,
                    big % s >= 0,
                    big / s >= 0x20_0000_0000_0000,
                    s > 0,
            ;
        }
        s = s * 2;
    }
    let rq = round_div(big, s);
    let q = big / s;
    let rem = big % s;
    proof {
        lemma_fundamental_div_mod(big as int, s as int);
        assert(s * q == big - rem);
        assert(rem < s);
    }
    if rq == q {
        assert(s * rq == big - rem);
        big - rem
    } else {
        assert(s * rq == s * q + s) by (nonlinear_arith)
            requires
                rq == q + 1,
        ;
        big - rem + s
    }
}

/// Appends `size` in units of `unit` with one decimal.
fn push_scaled(out: &mut Vec<char>, size: u64, unit: u128)
    requires
        unit == 0x400 || unit == 0x10_0000 || unit == 0x4000_0000,
    ensures
        final(out)@ == old(out)@ + scaled(size as nat, unit as nat),
{
    let d = nearest_double_of(size);
    let t = round_div(d * 10, unit);
    let whole: u128 = t / 10;
    let tenth: u128 = t % 10;
    assert(whole < 0x1_0000_0000_0000_0000) by (nonlinear_arith)
        requires
            t as int <= (d as int * 10) / (unit as int) + 1,
            d <= 0x2_0000_0000_0000_0000,
            unit >= 0x400,
            whole == t / 10,
    ;
    push_decimal(out, whole as u64);
    out.push('.');
    let digit: u8 = tenth as u8;
    out.push((digit + 48) as char);
    proof {
        assert((digit + 48) as char == digit_char(t as nat % 10));
        assert(seq!['.', digit_char(t as nat % 10)] =~= seq!['.'].push(digit_char(t as nat % 10)));
    }
}

/// A size in bytes for people, such as `500 B` or `1.5 KB`.
pub fn format_size(size: u64) -> (r: String)
    ensures
        r@ == size_text(size as nat),
{
    let mut out: Vec<char> = Vec::new();
    if size >= 0x4000_0000 {
        push_scaled(&mut out, size, 0x4000_0000);
        push_str(&mut out, " GB");
    } else if size >= 0x10_0000 {
        push_scaled(&mut out, size, 0x10_0000);
        push_str(&mut out, " MB");
    } else if size >= 0x400 {
        push_scaled(&mut out, size, 0x400);
        push_str(&mut out, " KB");
    } else {
        push_decimal(&mut out, size);
        push_str(&mut out, " B");
    }
    string_of(&out)
}

} // verus!
