use vstd::prelude::*;

verus! {

/// The process-wide lifecycle mode.
#[derive(Clone, Copy, Debug, PartialEq, Eq, Structural)]
pub enum LifecycleMode {
    Dev,
    CI,
    Test,
    Package,
}

/// Name of the environment variable that holds the mode.
pub const MODE_ENV_NAME: &'static str = "CNB_LIFECYCLE_MODE";

/// `c` is `lower` up to ASCII case (`lower` being lower case).
pub open spec fn same_letter(c: char, lower: char) -> bool {
    c == lower || ('a' <= lower && lower <= 'z' && c as u32 + 32 == lower as u32)
}

pub open spec fn equal_ignoring_case(s: Seq<char>, lower: Seq<char>) -> bool {
    &&& s.len() == lower.len()
    &&& forall|i: int| 0 <= i < s.len() ==> same_letter(#[trigger] s[i], lower[i])
}

/// The mode a string names, ignoring ASCII case.
pub open spec fn mode_named(s: Seq<char>) -> Option<LifecycleMode> {
    if equal_ignoring_case(s, "dev"@) {
        Some(LifecycleMode::Dev)
    } else if equal_ignoring_case(s, "test"@) {
        Some(LifecycleMode::Test)
    } else if equal_ignoring_case(s, "package"@) {
        Some(LifecycleMode::Package)
    } else if equal_ignoring_case(s, "ci"@) {
        Some(LifecycleMode::CI)
    } else {
        None
    }
}

pub open spec fn mode_name(m: LifecycleMode) -> Seq<char> {
    match m {
        LifecycleMode::Dev => "Dev"@,
        LifecycleMode::Test => "Test"@,
        LifecycleMode::Package => "Package"@,
        LifecycleMode::CI => "CI"@,
    }
}

fn matches_ignoring_case(s: &str, lower: &str) -> (r: bool)
    ensures
        r == equal_ignoring_case(s@, lower@),
{
    let n = s.unicode_len();
    if n != lower.unicode_len() {
        return false;
    }
    let mut i: usize = 0;
    while i < n
        invariant
            i <= n,
            n == s@.len(),
            n == lower@.len(),
            forall|j: int| 0 <= j < i ==> same_letter(#[trigger] s@[j], lower@[j]),
        decreases n - i,
    {
        let c = s.get_char(i);
        let d = lower.get_char(i);
        let same = c == d || ('a' <= d && d <= 'z' && c as u32 + 32 == d as u32);
        if !same {
            return false;
        }
        i = i + 1;
    }
    true
}

impl LifecycleMode {
    /// The mode `s` names (`dev`, `test`, `package` or `ci`, in any ASCII case).
    pub fn from_name(s: &str) -> (r: Option<LifecycleMode>)
        ensures
            r == mode_named(s@),
    {
        if matches_ignoring_case(s, "dev") {
            Some(LifecycleMode::Dev)
        } else if matches_ignoring_case(s, "test") {
            Some(LifecycleMode::Test)
        } else if matches_ignoring_case(s, "package") {
            Some(LifecycleMode::Package)
        } else if matches_ignoring_case(s, "ci") {
            Some(LifecycleMode::CI)
        } else {
            None
        }
    }

    /// The value stored in the environment for this mode.
    pub fn as_str(&self) -> (r: &'static str)
        ensures
            r@ == mode_name(*self),
    {
        match self {
            LifecycleMode::Dev => "Dev",
            LifecycleMode::Test => "Test",
            LifecycleMode::Package => "Package",
            LifecycleMode::CI => "CI",
        }
    }

    /// The mode in effect: the configured one, or `CI` when none is.
    pub fn or_default(configured: Option<LifecycleMode>) -> (r: LifecycleMode)
        ensures
            r == match configured {
                Some(m) => m,
                None => LifecycleMode::CI,
            },
    {
        match configured {
            Some(m) => m,
            None => LifecycleMode::CI,
        }
    }
}

} // verus!
