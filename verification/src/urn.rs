//! Unified Resource Namespace (URN): `neodos://<scheme>/<path>`.
//!
//! Every scheme is a front end to the object namespace:
//! `neodos://file/...` resolves through the VFS, `neodos://device/...`
//! opens `\Device\...`; the registry and kernel-object schemes are parsed
//! but not yet openable.

use vstd::prelude::*;
use vstd::string::*;

verus! {

/// The prefix every URN starts with.
pub const URN_PREFIX: &'static str = "neodos://";

/// The scheme of a URN.
#[derive(Debug, Clone, Copy, PartialEq, Eq, Structural)]
pub enum UrnScheme {
    Device,
    File,
    Registry,
    KObj,
}

/// The name of a scheme as it appears in a URN.
pub open spec fn spec_scheme_name(s: UrnScheme) -> Seq<char> {
    match s {
        UrnScheme::Device => "device"@,
        UrnScheme::File => "file"@,
        UrnScheme::Registry => "registry"@,
        UrnScheme::KObj => "kobj"@,
    }
}

/// The scheme whose name is `name`, if any.
pub open spec fn spec_scheme_from(name: Seq<char>) -> Option<UrnScheme> {
    if name == "device"@ {
        Some(UrnScheme::Device)
    } else if name == "file"@ {
        Some(UrnScheme::File)
    } else if name == "registry"@ {
        Some(UrnScheme::Registry)
    } else if name == "kobj"@ {
        Some(UrnScheme::KObj)
    } else {
        None
    }
}

fn str_eq(a: &str, b: &str) -> (r: bool)
    ensures
        r == (a@ == b@),
{
    let n = a.unicode_len();
    if n != b.unicode_len() {
        return false;
    }
    let mut i: usize = 0;
    while i < n
        invariant
            n == a@.len(),
            n == b@.len(),
            i <= n,
            forall|j: int| 0 <= j < i ==> a@[j] == b@[j],
        decreases n - i,
    {
        if a.get_char(i) != b.get_char(i) {
            return false;
        }
        i = i + 1;
    }
    assert(a@ =~= b@);
    true
}

impl UrnScheme {
    /// The scheme's name.
    pub fn to_str(self) -> (r: &'static str)
        ensures
            r@ == spec_scheme_name(self),
    {
        match self {
            UrnScheme::Device => "device",
            UrnScheme::File => "file",
            UrnScheme::Registry => "registry",
            UrnScheme::KObj => "kobj",
        }
    }

    /// The scheme with the given name.
    pub fn from_str(s: &str) -> (r: Option<Self>)
        ensures
            r == spec_scheme_from(s@),
    {
        if str_eq(s, "device") {
            Some(UrnScheme::Device)
        } else if str_eq(s, "file") {
            Some(UrnScheme::File)
        } else if str_eq(s, "registry") {
            Some(UrnScheme::Registry)
        } else if str_eq(s, "kobj") {
            Some(UrnScheme::KObj)
        } else {
            None
        }
    }
}

/// A parsed URN.
#[derive(Debug, Clone)]
pub struct Urn {
    pub scheme: UrnScheme,
    pub path: String,
}

/// The text of a URN with the given scheme and path.
pub open spec fn spec_urn_text(scheme: UrnScheme, path: Seq<char>) -> Seq<char> {
    URN_PREFIX@ + spec_scheme_name(scheme) + "/"@ + path
}

impl Urn {
    /// `neodos://<scheme>/<path>`.
    pub fn to_string(&self) -> (r: String)
        ensures
            r@ == spec_urn_text(self.scheme, self.path@),
    {
        let mut s = String::from_str(URN_PREFIX);
        s.append(self.scheme.to_str());
        s.append("/");
        s.append(self.path.as_str());
        s
    }
}

/// A URN handle: a kernel fd (handle-table index).
#[derive(Debug, Clone, Copy, PartialEq, Eq, Structural)]
pub struct UrnHandle {
    pub fd: u8,
}

impl UrnHandle {
    pub fn new(fd: u8) -> (h: Self)
        ensures
            h.fd == fd,
    {
        UrnHandle { fd }
    }
}

/// Index of the first `c` in `s` (`s.len()` when there is none).
pub open spec fn find_char(s: Seq<char>, c: char) -> int
    decreases s.len(),
{
    if s.len() == 0 {
        0
    } else if s[0] == c {
        0
    } else {
        1 + find_char(s.drop_first(), c)
    }
}

proof fn lemma_find_char(s: Seq<char>, c: char)
    ensures
        0 <= find_char(s, c) <= s.len(),
        find_char(s, c) < s.len() ==> s[find_char(s, c)] == c,
        forall|j: int| 0 <= j < find_char(s, c) ==> s[j] != c,
    decreases s.len(),
{
    if s.len() > 0 && s[0] != c {
        lemma_find_char(s.drop_first(), c);
        assert forall|j: int| 0 <= j < find_char(s, c) implies s[j] != c by {
            if j > 0 {
                assert(s[j] == s.drop_first()[j - 1]);
            }
        }
    }
}

/// The first index `i` with `s[i] == c`, found by scanning: it is
/// `find_char` whenever no earlier position holds `c`.
proof fn lemma_find_char_at(s: Seq<char>, c: char, i: int)
    requires
        0 <= i <= s.len(),
        forall|j: int| 0 <= j < i ==> s[j] != c,
        i < s.len() ==> s[i] == c,
    ensures
        find_char(s, c) == i,
    decreases s.len(),
{
    if s.len() > 0 && i > 0 {
        assert forall|j: int| 0 <= j < i - 1 implies s.drop_first()[j] != c by {
            assert(s.drop_first()[j] == s[j + 1]);
        }
        lemma_find_char_at(s.drop_first(), c, i - 1);
    }
}

/// The outcome of parsing a URN text: its scheme and path, or the reason
/// it is refused.
pub open spec fn spec_urn_parse(s: Seq<char>) -> Result<(UrnScheme, Seq<char>), &'static str> {
    let p = URN_PREFIX@;
    if !(s.len() >= p.len() && s.subrange(0, p.len() as int) == p) {
        Err("URN must start with neodos://")
    } else {
        let rest = s.subrange(p.len() as int, s.len() as int);
        let slash = find_char(rest, '/');
        if slash == rest.len() {
            Err("URN must have scheme and path separated by /")
        } else if slash == 0 {
            Err("URN scheme is empty")
        } else {
            let path = rest.subrange(slash + 1, rest.len() as int);
            if path.len() == 0 {
                Err("URN path is empty")
            } else {
                match spec_scheme_from(rest.subrange(0, slash)) {
                    None => Err("Unknown URN scheme (valid: device, file, registry, kobj)"),
                    Some(scheme) => Ok((scheme, path)),
                }
            }
        }
    }
}

/// Parse `neodos://<scheme>/<path>`; the scheme ends at the first `/`
/// after the prefix and the path (everything after it) must not be empty.
pub fn urn_parse(urn_str: &str) -> (r: Result<Urn, &'static str>)
    ensures
        match r {
            Ok(u) => spec_urn_parse(urn_str@) == Ok::<(UrnScheme, Seq<char>), &'static str>(
                (u.scheme, u.path@),
            ),
            Err(e) => spec_urn_parse(urn_str@) == Err::<(UrnScheme, Seq<char>), &'static str>(e),
        },
{
    proof {
        reveal_strlit("neodos://");
    }
    let n = urn_str.unicode_len();
    let plen = URN_PREFIX.unicode_len();
    if n < plen || !str_eq(urn_str.substring_char(0, plen), URN_PREFIX) {
        return Err("URN must start with neodos://");
    }
    let rest = urn_str.substring_char(plen, n);
    let rn = n - plen;
    let mut slash: usize = 0;
    while slash < rn && rest.get_char(slash) != '/'
        invariant
            rn == rest@.len(),
            slash <= rn,
            forall|j: int| 0 <= j < slash ==> rest@[j] != '/',
        decreases rn - slash,
    {
        slash = slash + 1;
    }
    proof {
        lemma_find_char_at(rest@, '/', slash as int);
    }
    if slash == rn {
        return Err("URN must have scheme and path separated by /");
    }
    if slash == 0 {
        return Err("URN scheme is empty");
    }
    let path = rest.substring_char(slash + 1, rn);
    if path.unicode_len() == 0 {
        return Err("URN path is empty");
    }
    let scheme_str = rest.substring_char(0, slash);
    match UrnScheme::from_str(scheme_str) {
        None => Err("Unknown URN scheme (valid: device, file, registry, kobj)"),
        Some(scheme) => Ok(Urn { scheme, path: String::from_str(path) }),
    }
}

proof fn lemma_scheme_names()
    ensures
        forall|x: UrnScheme| #[trigger] spec_scheme_from(spec_scheme_name(x)) == Some(x),
        forall|x: UrnScheme| find_char(#[trigger] spec_scheme_name(x), '/') == spec_scheme_name(x).len(),
        forall|x: UrnScheme| (#[trigger] spec_scheme_name(x)).len() > 0,
{
    reveal_strlit("device");
    reveal_strlit("file");
    reveal_strlit("registry");
    reveal_strlit("kobj");
    assert forall|x: UrnScheme| #[trigger] spec_scheme_from(spec_scheme_name(x)) == Some(x) by {
        assert("device"@.len() == 6);
        assert("file"@.len() == 4);
        assert("registry"@.len() == 8);
        assert("kobj"@.len() == 4);
        assert("file"@[0] == 'f');
        assert("kobj"@[0] == 'k');
        assert("device"@ != "file"@);
        assert("device"@ != "registry"@);
        assert("device"@ != "kobj"@);
        assert("file"@ != "registry"@);
        assert("file"@ != "kobj"@);
        assert("registry"@ != "kobj"@);
    }
    assert forall|x: UrnScheme| find_char(#[trigger] spec_scheme_name(x), '/') == spec_scheme_name(
        x,
    ).len() by {
        let nm = spec_scheme_name(x);
        lemma_find_char_at(nm, '/', nm.len() as int);
    }
}

/// Printing a URN and parsing the text gives the URN back, whenever its
/// path is not empty; and a text that parses is exactly the printed form of
/// what it parses to.
pub proof fn lemma_urn_roundtrip(scheme: UrnScheme, path: Seq<char>, text: Seq<char>)
    ensures
        path.len() > 0 ==> spec_urn_parse(spec_urn_text(scheme, path)) == Ok::<
            (UrnScheme, Seq<char>),
            &'static str,
        >((scheme, path)),
        spec_urn_parse(text) matches Ok((sc, p)) ==> spec_urn_text(sc, p) == text,
{
    reveal_strlit("neodos://");
    reveal_strlit("/");
    lemma_scheme_names();
    let p = URN_PREFIX@;
    if path.len() > 0 {
        let s = spec_urn_text(scheme, path);
        let nm = spec_scheme_name(scheme);
        assert(s.subrange(0, p.len() as int) =~= p);
        let rest = s.subrange(p.len() as int, s.len() as int);
        assert(rest =~= nm + seq!['/'] + path);
        assert forall|j: int| 0 <= j < nm.len() implies rest[j] != '/' by {
            lemma_find_char(nm, '/');
            assert(rest[j] == nm[j]);
        }
        lemma_find_char_at(rest, '/', nm.len() as int);
        assert(rest.subrange(0, nm.len() as int) =~= nm);
        assert(rest.subrange(nm.len() + 1int, rest.len() as int) =~= path);
    }
    if spec_urn_parse(text) is Ok {
        let rest = text.subrange(p.len() as int, text.len() as int);
        let slash = find_char(rest, '/');
        lemma_find_char(rest, '/');
        let sc = spec_scheme_from(rest.subrange(0, slash))->0;
        assert(spec_scheme_name(sc) == rest.subrange(0, slash));
        assert(text =~= p + rest.subrange(0, slash) + "/"@ + rest.subrange(slash + 1, rest.len() as int));
    }
}

/// What a URN opens: a VFS file path or an object-namespace path.
#[derive(Debug, Clone)]
pub enum UrnTarget {
    /// A VFS path (separators turned into `\`).
    File(String),
    /// An object-namespace path under `\Device\`.
    Device(String),
}

/// `s` with every `/` replaced by `\`.
pub open spec fn spec_backslashed(s: Seq<char>) -> Seq<char> {
    Seq::new(s.len(), |i: int| if s[i] == '/' { '\\' } else { s[i] })
}

/// What opening a URN resolves to, as a spec.
pub open spec fn spec_urn_open(s: Seq<char>) -> Result<(bool, Seq<char>), &'static str> {
    match spec_urn_parse(s) {
        Err(e) => Err(e),
        Ok((scheme, path)) => match scheme {
            UrnScheme::File => Ok((true, spec_backslashed(path))),
            UrnScheme::Device => Ok((false, "\\Device\\"@ + path)),
            UrnScheme::Registry => Err("Registry URN scheme not yet implemented"),
            UrnScheme::KObj => Err("KObj URN scheme not yet implemented"),
        },
    }
}

/// Resolve a URN to the namespace object it opens: `file` URNs name a VFS
/// path, `device` URNs the object `\Device\<path>`; registry and kernel
/// object URNs are refused. Opening the object and allocating the fd that
/// becomes the `UrnHandle` is done by the handle-table owner with the
/// returned target.
pub fn urn_open(urn_str: &str) -> (r: Result<UrnTarget, &'static str>)
    ensures
        match r {
            Ok(UrnTarget::File(p)) => spec_urn_open(urn_str@) == Ok::<(bool, Seq<char>), &'static str>(
                (true, p@),
            ),
            Ok(UrnTarget::Device(p)) => spec_urn_open(urn_str@) == Ok::<
                (bool, Seq<char>),
                &'static str,
            >((false, p@)),
            Err(e) => spec_urn_open(urn_str@) == Err::<(bool, Seq<char>), &'static str>(e),
        },
{
    let urn = urn_parse(urn_str)?;
    match urn.scheme {
        UrnScheme::File => {
            let path = urn.path.as_str();
            let n = path.unicode_len();
            let mut out = String::new();
            let mut i: usize = 0;
            while i < n
                invariant
                    n == path@.len(),
                    i <= n,
                    out@ == spec_backslashed(path@).subrange(0, i as int),
                decreases n - i,
            {
                let c = path.get_char(i);
                if c == '/' {
                    out.append("\\");
                    proof {
                        reveal_strlit("\\");
                    }
                } else {
                    out.append(path.substring_char(i, i + 1));
                }
                proof {
                    assert(out@ =~= spec_backslashed(path@).subrange(0, i + 1));
                }
                i = i + 1;
            }
            assert(spec_backslashed(path@).subrange(0, n as int) =~= spec_backslashed(path@));
            Ok(UrnTarget::File(out))
        },
        UrnScheme::Device => {
            let mut p = String::from_str("\\Device\\");
            p.append(urn.path.as_str());
            Ok(UrnTarget::Device(p))
        },
        UrnScheme::Registry => Err("Registry URN scheme not yet implemented"),
        UrnScheme::KObj => Err("KObj URN scheme not yet implemented"),
    }
}

} // verus!
