use vstd::prelude::*;

verus! {

/// One of the lifecycle steps a buildpack executable can be invoked for.
#[derive(Clone, Copy, Debug, PartialEq, Eq, Structural)]
pub enum Phase {
    Detect,
    Build,
    Test,
    Publish,
}

/// The phases an entry point is willing to run.
#[derive(Clone, Copy, Debug, PartialEq, Eq, Structural)]
pub enum PhaseSet {
    /// detect, build, test and publish
    All,
    /// detect and build only (the reduced entry point)
    DetectAndBuild,
}

/// A buildpack API version; only exact equality is meaningful.
#[derive(Clone, Copy, Debug, PartialEq, Eq, Structural)]
pub struct ApiVersion {
    pub major: u64,
    pub minor: u64,
}

/// The buildpack API version this runtime speaks.
pub const SUPPORTED_API_MAJOR: u64 = 0;

pub const SUPPORTED_API_MINOR: u64 = 6;

pub const EXIT_SUCCESS: i32 = 0;

pub const EXIT_USAGE: i32 = 1;

pub const EXIT_TEST_FAILED: i32 = 1;

pub const EXIT_DETECT_FAILED: i32 = 100;

pub const EXIT_API_MISMATCH: i32 = 254;

pub const EXIT_UNKNOWN_PHASE: i32 = 255;

pub open spec fn supported_api() -> ApiVersion {
    ApiVersion { major: SUPPORTED_API_MAJOR, minor: SUPPORTED_API_MINOR }
}

/// The API version this runtime supports.
pub fn supported_api_version() -> (r: ApiVersion)
    ensures
        r == supported_api(),
{
    ApiVersion { major: SUPPORTED_API_MAJOR, minor: SUPPORTED_API_MINOR }
}

pub open spec fn phase_named(name: Seq<char>) -> Option<Phase> {
    if name == "detect"@ {
        Some(Phase::Detect)
    } else if name == "build"@ {
        Some(Phase::Build)
    } else if name == "test"@ {
        Some(Phase::Test)
    } else if name == "publish"@ {
        Some(Phase::Publish)
    } else {
        None
    }
}

pub open spec fn offers(set: PhaseSet, phase: Phase) -> bool {
    match set {
        PhaseSet::All => true,
        PhaseSet::DetectAndBuild => phase == Phase::Detect || phase == Phase::Build,
    }
}

/// The phase selected by an invocation name, if `set` offers it.
pub open spec fn selected_phase(set: PhaseSet, name: Option<Seq<char>>) -> Option<Phase> {
    match name {
        Some(n) => match phase_named(n) {
            Some(p) => if offers(set, p) {
                Some(p)
            } else {
                None
            },
            None => None,
        },
        None => None,
    }
}

/// Number of positional arguments each phase takes.
pub open spec fn arity(phase: Phase) -> nat {
    match phase {
        Phase::Detect => 2,
        Phase::Build => 3,
        Phase::Test => 2,
        Phase::Publish => 1,
    }
}

fn same_text(a: &str, b: &str) -> (r: bool)
    ensures
        r == (a@ == b@),
{
    String::from_str(a) == String::from_str(b)
}

/// Determines the phase from the executable's own file name.
pub fn phase_from_name(set: PhaseSet, name: Option<&str>) -> (r: Option<Phase>)
    ensures
        r == selected_phase(set, match name {
            Some(n) => Some(n@),
            None => None,
        }),
{
    let named = match name {
        None => None,
        Some(n) => {
            if same_text(n, "detect") {
                Some(Phase::Detect)
            } else if same_text(n, "build") {
                Some(Phase::Build)
            } else if same_text(n, "test") {
                Some(Phase::Test)
            } else if same_text(n, "publish") {
                Some(Phase::Publish)
            } else {
                None
            }
        },
    };
    match named {
        Some(p) => {
            let offered = match set {
                PhaseSet::All => true,
                PhaseSet::DetectAndBuild => match p {
                    Phase::Detect | Phase::Build => true,
                    _ => false,
                },
            };
            if offered {
                Some(p)
            } else {
                None
            }
        },
        None => None,
    }
}

/// The positional arguments of each phase, in order.
#[derive(Debug)]
pub enum PhaseArgs {
    Detect { platform_dir: String, build_plan_path: String },
    Build { layers_dir: String, platform_dir: String, buildpack_plan_path: String },
    Test { layers_dir: String, platform_dir: String },
    Publish { platform_dir: String },
}

/// `a` is what `args` says for `phase`.
pub open spec fn args_of(phase: Phase, a: PhaseArgs, args: Seq<String>) -> bool {
    &&& args.len() == arity(phase)
    &&& match a {
        PhaseArgs::Detect { platform_dir, build_plan_path } => phase == Phase::Detect
            && platform_dir@ == args[0]@ && build_plan_path@ == args[1]@,
        PhaseArgs::Build { layers_dir, platform_dir, buildpack_plan_path } => phase
            == Phase::Build && layers_dir@ == args[0]@ && platform_dir@ == args[1]@
            && buildpack_plan_path@ == args[2]@,
        PhaseArgs::Test { layers_dir, platform_dir } => phase == Phase::Test && layers_dir@
            == args[0]@ && platform_dir@ == args[1]@,
        PhaseArgs::Publish { platform_dir } => phase == Phase::Publish && platform_dir@
            == args[0]@,
    }
}

/// Reads the positional arguments (those after the executable name) of `phase`;
/// `None` when their number is not the phase's arity.
pub fn parse_phase_args(phase: Phase, args: &Vec<String>) -> (r: Option<PhaseArgs>)
    ensures
        r is Some <==> args@.len() == arity(phase),
        r matches Some(a) ==> args_of(phase, a, args@),
{
    let n = args.len();
    match phase {
        Phase::Detect => if n == 2 {
            Some(PhaseArgs::Detect { platform_dir: args[0].clone(), build_plan_path: args[1].clone() })
        } else {
            None
        },
        Phase::Build => if n == 3 {
            Some(
                PhaseArgs::Build {
                    layers_dir: args[0].clone(),
                    platform_dir: args[1].clone(),
                    buildpack_plan_path: args[2].clone(),
                },
            )
        } else {
            None
        },
        Phase::Test => if n == 2 {
            Some(PhaseArgs::Test { layers_dir: args[0].clone(), platform_dir: args[1].clone() })
        } else {
            None
        },
        Phase::Publish => if n == 1 {
            Some(PhaseArgs::Publish { platform_dir: args[0].clone() })
        } else {
            None
        },
    }
}

/// What the runtime does once the descriptor has been loaded.
#[derive(Debug)]
pub enum Startup {
    /// The descriptor declares another API version: exit 254.
    ApiMismatch,
    /// The invocation name is not an offered phase: exit 255.
    UnknownPhase,
    /// The phase got the wrong number of arguments: exit 1.
    Usage(Phase),
    /// Assemble the context and run the phase.
    Run(PhaseArgs),
}

impl Startup {
    /// The code the process exits with right away, or `None` when the phase runs.
    pub fn exit_code(&self) -> (r: Option<i32>)
        ensures
            r == startup_exit_code(*self),
    {
        match self {
            Startup::ApiMismatch => Some(EXIT_API_MISMATCH),
            Startup::UnknownPhase => Some(EXIT_UNKNOWN_PHASE),
            Startup::Usage(_) => Some(EXIT_USAGE),
            Startup::Run(_) => None,
        }
    }
}

pub open spec fn startup_exit_code(s: Startup) -> Option<i32> {
    match s {
        Startup::ApiMismatch => Some(EXIT_API_MISMATCH),
        Startup::UnknownPhase => Some(EXIT_UNKNOWN_PHASE),
        Startup::Usage(_) => Some(EXIT_USAGE),
        Startup::Run(_) => None,
    }
}

pub open spec fn name_view(name: Option<&str>) -> Option<Seq<char>> {
    match name {
        Some(n) => Some(n@),
        None => None,
    }
}

/// `r` is the startup decision for a descriptor declaring `declared`.
pub open spec fn startup_for(
    set: PhaseSet,
    declared: ApiVersion,
    name: Option<Seq<char>>,
    args: Seq<String>,
    r: Startup,
) -> bool {
    if declared != supported_api() {
        r is ApiMismatch
    } else {
        match selected_phase(set, name) {
            None => r is UnknownPhase,
            Some(p) => if args.len() == arity(p) {
                r matches Startup::Run(a) && args_of(p, a, args)
            } else {
                r == Startup::Usage(p)
            },
        }
    }
}

/// The startup decision: API check first, then the phase from the invocation
/// name, then the phase's arguments.
pub fn decide_startup(set: PhaseSet, declared: ApiVersion, name: Option<&str>, args: &Vec<String>) -> (r:
    Startup)
    ensures
        startup_for(set, declared, name_view(name), args@, r),
        declared != supported_api() ==> startup_exit_code(r) == Some(254i32),
        declared == supported_api() && selected_phase(set, name_view(name)) is None ==> startup_exit_code(r) == Some(255i32),
        declared == supported_api() ==> (selected_phase(set, name_view(name)) matches Some(p) ==> (
        startup_exit_code(r) == Some(1i32) <==> args@.len() != arity(p))),
        startup_exit_code(r) is None ==> r is Run,
{
    if declared.major != SUPPORTED_API_MAJOR || declared.minor != SUPPORTED_API_MINOR {
        return Startup::ApiMismatch;
    }
    match phase_from_name(set, name) {
        None => Startup::UnknownPhase,
        Some(p) => match parse_phase_args(p, args) {
            Some(a) => Startup::Run(a),
            None => Startup::Usage(p),
        },
    }
}

pub open spec fn is_digit(c: char) -> bool {
    '0' <= c && c <= '9'
}

/// A non-empty run of decimal digits.
pub open spec fn all_digits(s: Seq<char>) -> bool {
    s.len() > 0 && forall|i: int| 0 <= i < s.len() ==> is_digit(#[trigger] s[i])
}

/// The number a run of decimal digits denotes.
pub open spec fn digits_value(s: Seq<char>) -> int
    decreases s.len(),
{
    if s.len() == 0 {
        0
    } else {
        digits_value(s.drop_last()) * 10 + (s.last() as int - '0' as int)
    }
}

/// `s` is `major.minor` written in decimal digits, dot at `k`.
pub open spec fn api_text_at(s: Seq<char>, k: int, major: int, minor: int) -> bool {
    &&& 0 <= k < s.len()
    &&& s[k] == '.'
    &&& all_digits(s.take(k))
    &&& all_digits(s.skip(k + 1))
    &&& digits_value(s.take(k)) == major
    &&& digits_value(s.skip(k + 1)) == minor
}

/// `s` is the text of `v`.
pub open spec fn written_as(s: Seq<char>, v: ApiVersion) -> bool {
    exists|k: int| api_text_at(s, k, v.major as int, v.minor as int)
}

proof fn lemma_digits_grow(s: Seq<char>)
    requires
        all_digits(s),
    ensures
        digits_value(s) >= 0,
        s.len() > 1 ==> digits_value(s) >= digits_value(s.drop_last()),
    decreases s.len(),
{
    assert(is_digit(s[s.len() - 1]));
    if s.len() > 1 {
        assert(all_digits(s.drop_last())) by {
            assert(forall|i: int| 0 <= i < s.drop_last().len() ==> s.drop_last()[i] == s[i]);
        }
        lemma_digits_grow(s.drop_last());
    }
}

proof fn lemma_digits_prefix(s: Seq<char>, i: int)
    requires
        all_digits(s),
        1 <= i <= s.len(),
    ensures
        digits_value(s) >= digits_value(s.take(i)),
    decreases s.len() - i,
{
    if i < s.len() {
        assert(all_digits(s.take(i + 1))) by {
            assert(forall|j: int| 0 <= j < s.take(i + 1).len() ==> s.take(i + 1)[j] == s[j]);
        }
        lemma_digits_grow(s.take(i + 1));
        assert(s.take(i + 1).drop_last() =~= s.take(i));
        lemma_digits_prefix(s, i + 1);
    } else {
        assert(s.take(i) =~= s);
    }
}

/// Reads the decimal number in `s[from..to]`; `None` when it is empty, holds
/// another character, or exceeds `u64`.
fn parse_digits(s: &str, from: usize, to: usize) -> (r: Option<u64>)
    requires
        from <= to <= s@.len(),
    ensures
        match r {
            Some(v) => all_digits(s@.subrange(from as int, to as int)) && digits_value(
                s@.subrange(from as int, to as int),
            ) == v,
            None => !(all_digits(s@.subrange(from as int, to as int)) && digits_value(
                s@.subrange(from as int, to as int),
            ) <= u64::MAX),
        },
{
    let ghost whole = s@.subrange(from as int, to as int);
    if from == to {
        return None;
    }
    let mut acc: u64 = 0;
    let mut i: usize = from;
    while i < to
        invariant
            from <= i <= to <= s@.len(),
            whole == s@.subrange(from as int, to as int),
            forall|j: int| from <= j < i ==> is_digit(#[trigger] s@[j]),
            acc == digits_value(s@.subrange(from as int, i as int)),
        decreases to - i,
    {
        let c = s.get_char(i);
        let ghost prefix = s@.subrange(from as int, i + 1);
        proof {
            assert(prefix.drop_last() =~= s@.subrange(from as int, i as int));
        }
        if !('0' <= c && c <= '9') {
            proof {
                assert(whole[i - from] == c);
            }
            return None;
        }
        let d = (c as u32 - '0' as u32) as u64;
        if acc > (u64::MAX - d) / 10 {
            proof {
                assert(prefix =~= whole.take(i + 1 - from));
                assert(all_digits(whole) ==> digits_value(whole) >= digits_value(prefix)) by {
                    if all_digits(whole) {
                        lemma_digits_prefix(whole, i + 1 - from);
                    }
                }
                assert(digits_value(prefix) == acc * 10 + d);
                assert(acc * 10 + d > u64::MAX) by (nonlinear_arith)
                    requires
                        acc > (u64::MAX - d) / 10,
                        d <= 9,
                ;
            }
            return None;
        }
        proof {
            assert((acc * 10 + d) <= u64::MAX) by (nonlinear_arith)
                requires
                    acc <= (u64::MAX - d) / 10,
                    d <= 9,
            ;
        }
        acc = acc * 10 + d;
        i = i + 1;
    }
    proof {
        assert(whole =~= s@.subrange(from as int, to as int));
        assert(all_digits(whole)) by {
            assert(forall|j: int| 0 <= j < whole.len() ==> whole[j] == s@[from + j]);
        }
    }
    Some(acc)
}

/// Reads an API version written `major.minor`, as in `api = "0.6"`.
pub fn parse_api_version(s: &str) -> (r: Option<ApiVersion>)
    ensures
        r matches Some(v) ==> written_as(s@, v),
        r is None ==> !exists|k: int, a: int, b: int|
            api_text_at(s@, k, a, b) && a <= u64::MAX && b <= u64::MAX,
{
    let n = s.unicode_len();
    let mut k: usize = 0;
    while k < n && s.get_char(k) != '.'
        invariant
            k <= n,
            n == s@.len(),
            forall|j: int| 0 <= j < k ==> s@[j] != '.',
        decreases n - k,
    {
        k = k + 1;
    }
    if k == n {
        proof {
            assert forall|k2: int, a: int, b: int| !api_text_at(s@, k2, a, b) by {
                if 0 <= k2 < s@.len() {
                    assert(s@[k2] != '.');
                }
            }
        }
        return None;
    }
    proof {
        assert(s@.take(k as int) =~= s@.subrange(0, k as int));
        assert(s@.skip(k + 1) =~= s@.subrange(k + 1, n as int));
        assert forall|k2: int, a: int, b: int| api_text_at(s@, k2, a, b) implies k2 == k by {
            if k2 < k {
                assert(s@[k2] != '.');
            } else if k2 > k {
                assert(s@.take(k2)[k as int] == '.');
                assert(!is_digit(s@.take(k2)[k as int]));
            }
        }
    }
    let major = parse_digits(s, 0, k);
    let minor = parse_digits(s, k + 1, n);
    if let Some(a) = major {
        if let Some(b) = minor {
            let v = ApiVersion { major: a, minor: b };
            proof {
                assert(api_text_at(s@, k as int, v.major as int, v.minor as int));
                assert(written_as(s@, v));
            }
            return Some(v);
        }
    }
    None
}

} // verus!
