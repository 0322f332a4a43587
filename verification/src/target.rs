//! Build targets: a supported target triple, or the path of a target
//! description.

use vstd::prelude::*;
use vstd::string::*;

verus! {

/// Why a text is not a supported target triple.
#[derive(Clone, Copy, Debug, PartialEq, Eq, Structural)]
pub enum TargetError {
    MissingVendor,
    MissingOs,
    MissingEnvironment,
    UnsupportedArchitecture,
    UnsupportedVendor,
    UnsupportedOs,
    UnsupportedEnvironment,
}

impl TargetError {
    /// The message of the error.
    pub fn message(&self) -> (text: &'static str)
        ensures
            text@ == match *self {
                TargetError::MissingVendor => "missing vendor in target triple"@,
                TargetError::MissingOs => "missing OS in target triple"@,
                TargetError::MissingEnvironment => "missing environment in target triple"@,
                TargetError::UnsupportedArchitecture => "unsupported architecture"@,
                TargetError::UnsupportedVendor => "unsupported vendor"@,
                TargetError::UnsupportedOs => "unsupported OS"@,
                TargetError::UnsupportedEnvironment => "unsupported environment"@,
            },
    {
        match self {
            TargetError::MissingVendor => "missing vendor in target triple",
            TargetError::MissingOs => "missing OS in target triple",
            TargetError::MissingEnvironment => "missing environment in target triple",
            TargetError::UnsupportedArchitecture => "unsupported architecture",
            TargetError::UnsupportedVendor => "unsupported vendor",
            TargetError::UnsupportedOs => "unsupported OS",
            TargetError::UnsupportedEnvironment => "unsupported environment",
        }
    }
}

/// The four fields of a target triple, as text.
pub struct TripleFields {
    pub arch: Seq<char>,
    pub vendor: Seq<char>,
    pub os: Seq<char>,
    pub env: Seq<char>,
}

impl TripleFields {
    /// The fields joined by dashes.
    pub open spec fn text(self) -> Seq<char> {
        self.arch + seq!['-'] + self.vendor + seq!['-'] + self.os + seq!['-'] + self.env
    }
}

/// The index of the first dash of `s` at or after `from`, or the length of
/// `s` where there is none.
pub open spec fn dash_from(s: Seq<char>, from: int) -> int
    decreases s.len() - from,
{
    if from >= s.len() {
        s.len() as int
    } else if s[from] == '-' {
        from
    } else {
        dash_from(s, from + 1)
    }
}

/// The one triple that is supported.
pub open spec fn supported_triple() -> TripleFields {
    TripleFields { arch: "riscv64gc"@, vendor: "unknown"@, os: "none"@, env: "elf"@ }
}

/// The reading of `s` as a target triple. The text is cut at its first
/// three dashes; what follows the third dash is the environment, dashes
/// included. A text with fewer dashes lacks a field, and each field has to
/// be the supported one.
pub open spec fn parse_triple(s: Seq<char>) -> Result<TripleFields, TargetError> {
    let len = s.len() as int;
    let first = dash_from(s, 0);
    let second = dash_from(s, first + 1);
    let third = dash_from(s, second + 1);
    let fields = TripleFields {
        arch: s.subrange(0, first),
        vendor: s.subrange(first + 1, second),
        os: s.subrange(second + 1, third),
        env: s.subrange(third + 1, len),
    };
    if first >= len {
        Err(TargetError::MissingVendor)
    } else if second >= len {
        Err(TargetError::MissingOs)
    } else if third >= len {
        Err(TargetError::MissingEnvironment)
    } else if fields.arch != supported_triple().arch {
        Err(TargetError::UnsupportedArchitecture)
    } else if fields.vendor != supported_triple().vendor {
        Err(TargetError::UnsupportedVendor)
    } else if fields.os != supported_triple().os {
        Err(TargetError::UnsupportedOs)
    } else if fields.env != supported_triple().env {
        Err(TargetError::UnsupportedEnvironment)
    } else {
        Ok(fields)
    }
}

/// `dash_from` finds a dash, passes no dash, and stays inside the text.
pub proof fn lemma_dash_from(s: Seq<char>, from: int)
    requires
        0 <= from <= s.len(),
    ensures
        from <= dash_from(s, from) <= s.len(),
        dash_from(s, from) < s.len() ==> s[dash_from(s, from)] == '-',
        forall|j: int| from <= j < dash_from(s, from) ==> s[j] != '-',
    decreases s.len() - from,
{
    if from < s.len() && s[from] != '-' {
        lemma_dash_from(s, from + 1);
    }
}

/// The index at or after `from` that is a dash or the end, with no dash
/// before it, is `dash_from`.
pub proof fn lemma_dash_from_is(s: Seq<char>, from: int, at: int)
    requires
        0 <= from <= at <= s.len(),
        at < s.len() ==> s[at] == '-',
        forall|j: int| from <= j < at ==> s[j] != '-',
    ensures
        dash_from(s, from) == at,
    decreases at - from,
{
    if from < at {
        lemma_dash_from_is(s, from + 1, at);
    }
}

/// The characters of `s`.
pub fn chars_of(s: &str) -> (chars: Vec<char>)
    ensures
        chars@ == s@,
{
    let mut chars: Vec<char> = Vec::new();
    for c in it: s.chars()
        invariant
            chars@ == it.seq().take(it.index() as int),
            it.seq() == s@,
    {
        chars.push(c);
    }
    chars
}

/// Whether the two texts are the same.
pub fn same_text(a: &str, b: &str) -> (same: bool)
    ensures
        same == (a@ == b@),
{
    a.to_owned() == b.to_owned()
}

/// The index of the first dash at or after `from`, or the length of `chars`.
fn find_dash(chars: &Vec<char>, from: usize) -> (at: usize)
    requires
        from <= chars.len(),
    ensures
        at == dash_from(chars@, from as int),
        from <= at <= chars.len(),
{
    let mut at = from;
    while at < chars.len() && chars[at] != '-'
        invariant
            from <= at <= chars.len(),
            dash_from(chars@, from as int) == dash_from(chars@, at as int),
        decreases chars.len() - at,
    {
        at += 1;
    }
    at
}

/// A target given by its triple.
#[derive(Clone, Debug)]
pub struct TargetTriple {
    /// The architecture of the target
    pub arch: String,
    /// The vendor of the target
    pub vendor: String,
    /// The OS of the target
    pub os: String,
    /// The environment of the target
    pub env: String,
}

impl View for TargetTriple {
    type V = TripleFields;

    open spec fn view(&self) -> TripleFields {
        TripleFields { arch: self.arch@, vendor: self.vendor@, os: self.os@, env: self.env@ }
    }
}

impl TargetTriple {
    /// Reads a target triple of the form `arch-vendor-os-env`.
    pub fn from_str(target_triple: &str) -> (r: Result<Self, TargetError>)
        ensures
            match r {
                Ok(triple) => parse_triple(target_triple@) == Ok::<TripleFields, TargetError>(
                    triple@,
                ),
                Err(error) => parse_triple(target_triple@) == Err::<TripleFields, TargetError>(
                    error,
                ),
            },
    {
        let chars = chars_of(target_triple);
        let len = chars.len();
        let first = find_dash(&chars, 0);
        if first >= len {
            return Err(TargetError::MissingVendor);
        }
        let second = find_dash(&chars, first + 1);
        if second >= len {
            return Err(TargetError::MissingOs);
        }
        let third = find_dash(&chars, second + 1);
        if third >= len {
            return Err(TargetError::MissingEnvironment);
        }
        let arch = target_triple.substring_char(0, first);
        let vendor = target_triple.substring_char(first + 1, second);
        let os = target_triple.substring_char(second + 1, third);
        let env = target_triple.substring_char(third + 1, len);
        if !same_text(arch, "riscv64gc") {
            return Err(TargetError::UnsupportedArchitecture);
        }
        if !same_text(vendor, "unknown") {
            return Err(TargetError::UnsupportedVendor);
        }
        if !same_text(os, "none") {
            return Err(TargetError::UnsupportedOs);
        }
        if !same_text(env, "elf") {
            return Err(TargetError::UnsupportedEnvironment);
        }
        Ok(
            Self {
                arch: arch.to_owned(),
                vendor: vendor.to_owned(),
                os: os.to_owned(),
                env: env.to_owned(),
            },
        )
    }
}

/// What a target is, as text.
pub enum TargetView {
    Triple(TripleFields),
    Path(Seq<char>),
}

impl TargetView {
    /// The target that the text `s` names: the triple, where `s` is a
    /// supported one, else the file at the path `s`.
    pub open spec fn of(s: Seq<char>) -> TargetView {
        match parse_triple(s) {
            Ok(fields) => TargetView::Triple(fields),
            Err(_) => TargetView::Path(s),
        }
    }

    /// The text that names the target.
    pub open spec fn text(self) -> Seq<char> {
        match self {
            TargetView::Triple(fields) => fields.text(),
            TargetView::Path(path) => path,
        }
    }
}

/// A build target.
#[derive(Debug, Clone)]
pub enum Target {
    /// One of the supported triples.
    Triple(TargetTriple),
    /// The path of a file that describes the target.
    Path(String),
}

impl View for Target {
    type V = TargetView;

    open spec fn view(&self) -> TargetView {
        match self {
            Target::Triple(triple) => TargetView::Triple(triple@),
            Target::Path(path) => TargetView::Path(path@),
        }
    }
}

impl Target {
    /// Reads a target: a supported triple, or else a path. Every text is one
    /// of the two, so this does not fail.
    pub fn from_str(target: &str) -> (r: Result<Self, TargetError>)
        ensures
            r matches Ok(parsed) && parsed@ == TargetView::of(target@),
    {
        match TargetTriple::from_str(target) {
            Ok(triple) => Ok(Target::Triple(triple)),
            Err(_) => Ok(Target::Path(target.to_owned())),
        }
    }

    /// The text that names the target: the fields of a triple joined by
    /// dashes, or the path.
    pub fn to_string(&self) -> (text: String)
        ensures
            text@ == self@.text(),
    {
        match self {
            Target::Triple(triple) => {
                proof {
                    reveal_strlit("-");
                    assert("-"@ =~= seq!['-']);
                }
                let mut text = triple.arch.clone();
                text.append("-");
                text.append(triple.vendor.as_str());
                text.append("-");
                text.append(triple.os.as_str());
                text.append("-");
                text.append(triple.env.as_str());
                text
            },
            Target::Path(path) => path.clone(),
        }
    }
}

/// A text cut at three dashes is its four fields joined by dashes again.
pub proof fn lemma_fields_rejoin(s: Seq<char>)
    requires
        parse_triple(s) is Ok,
    ensures
        parse_triple(s)->Ok_0.text() == s,
{
    let first = dash_from(s, 0);
    lemma_dash_from(s, 0);
    let second = dash_from(s, first + 1);
    lemma_dash_from(s, first + 1);
    let third = dash_from(s, second + 1);
    lemma_dash_from(s, second + 1);
    assert(parse_triple(s)->Ok_0.text() =~= s);
}

/// Exactly one text is a supported triple.
pub proof fn lemma_one_triple_is_supported(s: Seq<char>)
    ensures
        parse_triple(s) is Ok <==> s == "riscv64gc-unknown-none-elf"@,
        parse_triple(s) is Ok ==> parse_triple(s)->Ok_0 == supported_triple(),
{
    reveal_strlit("riscv64gc-unknown-none-elf");
    reveal_strlit("riscv64gc");
    reveal_strlit("unknown");
    reveal_strlit("none");
    reveal_strlit("elf");
    let whole = "riscv64gc-unknown-none-elf"@;
    if parse_triple(s) is Ok {
        lemma_fields_rejoin(s);
        let fields = parse_triple(s)->Ok_0;
        assert(fields.arch == "riscv64gc"@);
        assert(fields.vendor == "unknown"@);
        assert(fields.os == "none"@);
        assert(fields.env == "elf"@);
        assert(fields.text() =~= whole);
    }
    if s == whole {
        lemma_dash_from_is(s, 0, 9);
        lemma_dash_from_is(s, 10, 17);
        lemma_dash_from_is(s, 18, 22);
        assert(s.subrange(0, 9) =~= "riscv64gc"@);
        assert(s.subrange(10, 17) =~= "unknown"@);
        assert(s.subrange(18, 22) =~= "none"@);
        assert(s.subrange(23, 26) =~= "elf"@);
    }
}

/// Reading a text as a target and writing the target out gives the text
/// back.
pub proof fn lemma_target_round_trip(s: Seq<char>)
    ensures
        TargetView::of(s).text() == s,
{
    if parse_triple(s) is Ok {
        lemma_fields_rejoin(s);
    }
}

} // verus!
