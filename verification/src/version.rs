//! Engine versions and their command-line names.
use vstd::prelude::*;
use vstd::string::*;
use crate::strings::str_equal;

verus! {

/// The engine versions that a blueprint can be opened with, in the order of
/// the version table.
#[derive(Clone, Copy, Debug, PartialEq, Eq, Structural)]
pub enum EngineVersion {
    UNKNOWN,
    VER_UE4_OLDEST_LOADABLE_PACKAGE,
    VER_UE4_0,
    VER_UE4_1,
    VER_UE4_2,
    VER_UE4_3,
    VER_UE4_4,
    VER_UE4_5,
    VER_UE4_6,
    VER_UE4_7,
    VER_UE4_8,
    VER_UE4_9,
    VER_UE4_10,
    VER_UE4_11,
    VER_UE4_12,
    VER_UE4_13,
    VER_UE4_14,
    VER_UE4_15,
    VER_UE4_16,
    VER_UE4_17,
    VER_UE4_18,
    VER_UE4_19,
    VER_UE4_20,
    VER_UE4_21,
    VER_UE4_22,
    VER_UE4_23,
    VER_UE4_24,
    VER_UE4_25,
    VER_UE4_26,
    VER_UE4_27,
    VER_UE5_0,
    VER_UE5_1,
    VER_UE5_2,
}

/// Number of entries in the version table.
pub const VERSION_COUNT: usize = 33;

/// The engine version at position `i` of the version table.
pub open spec fn version_at(i: int) -> EngineVersion {
    if i <= 0 { EngineVersion::UNKNOWN }
    else if i == 1 { EngineVersion::VER_UE4_OLDEST_LOADABLE_PACKAGE }
    else if i == 2 { EngineVersion::VER_UE4_0 }
    else if i == 3 { EngineVersion::VER_UE4_1 }
    else if i == 4 { EngineVersion::VER_UE4_2 }
    else if i == 5 { EngineVersion::VER_UE4_3 }
    else if i == 6 { EngineVersion::VER_UE4_4 }
    else if i == 7 { EngineVersion::VER_UE4_5 }
    else if i == 8 { EngineVersion::VER_UE4_6 }
    else if i == 9 { EngineVersion::VER_UE4_7 }
    else if i == 10 { EngineVersion::VER_UE4_8 }
    else if i == 11 { EngineVersion::VER_UE4_9 }
    else if i == 12 { EngineVersion::VER_UE4_10 }
    else if i == 13 { EngineVersion::VER_UE4_11 }
    else if i == 14 { EngineVersion::VER_UE4_12 }
    else if i == 15 { EngineVersion::VER_UE4_13 }
    else if i == 16 { EngineVersion::VER_UE4_14 }
    else if i == 17 { EngineVersion::VER_UE4_15 }
    else if i == 18 { EngineVersion::VER_UE4_16 }
    else if i == 19 { EngineVersion::VER_UE4_17 }
    else if i == 20 { EngineVersion::VER_UE4_18 }
    else if i == 21 { EngineVersion::VER_UE4_19 }
    else if i == 22 { EngineVersion::VER_UE4_20 }
    else if i == 23 { EngineVersion::VER_UE4_21 }
    else if i == 24 { EngineVersion::VER_UE4_22 }
    else if i == 25 { EngineVersion::VER_UE4_23 }
    else if i == 26 { EngineVersion::VER_UE4_24 }
    else if i == 27 { EngineVersion::VER_UE4_25 }
    else if i == 28 { EngineVersion::VER_UE4_26 }
    else if i == 29 { EngineVersion::VER_UE4_27 }
    else if i == 30 { EngineVersion::VER_UE5_0 }
    else if i == 31 { EngineVersion::VER_UE5_1 }
    else { EngineVersion::VER_UE5_2 }
}

/// The position of a version in the version table (its discriminant).
pub open spec fn version_index(v: EngineVersion) -> int {
    match v {
        EngineVersion::UNKNOWN => 0,
        EngineVersion::VER_UE4_OLDEST_LOADABLE_PACKAGE => 1,
        EngineVersion::VER_UE4_0 => 2,
        EngineVersion::VER_UE4_1 => 3,
        EngineVersion::VER_UE4_2 => 4,
        EngineVersion::VER_UE4_3 => 5,
        EngineVersion::VER_UE4_4 => 6,
        EngineVersion::VER_UE4_5 => 7,
        EngineVersion::VER_UE4_6 => 8,
        EngineVersion::VER_UE4_7 => 9,
        EngineVersion::VER_UE4_8 => 10,
        EngineVersion::VER_UE4_9 => 11,
        EngineVersion::VER_UE4_10 => 12,
        EngineVersion::VER_UE4_11 => 13,
        EngineVersion::VER_UE4_12 => 14,
        EngineVersion::VER_UE4_13 => 15,
        EngineVersion::VER_UE4_14 => 16,
        EngineVersion::VER_UE4_15 => 17,
        EngineVersion::VER_UE4_16 => 18,
        EngineVersion::VER_UE4_17 => 19,
        EngineVersion::VER_UE4_18 => 20,
        EngineVersion::VER_UE4_19 => 21,
        EngineVersion::VER_UE4_20 => 22,
        EngineVersion::VER_UE4_21 => 23,
        EngineVersion::VER_UE4_22 => 24,
        EngineVersion::VER_UE4_23 => 25,
        EngineVersion::VER_UE4_24 => 26,
        EngineVersion::VER_UE4_25 => 27,
        EngineVersion::VER_UE4_26 => 28,
        EngineVersion::VER_UE4_27 => 29,
        EngineVersion::VER_UE5_0 => 30,
        EngineVersion::VER_UE5_1 => 31,
        EngineVersion::VER_UE5_2 => 32,
    }
}

/// The command-line name of each version.
pub open spec fn version_name(v: EngineVersion) -> Seq<char> {
    match v {
        EngineVersion::UNKNOWN => seq!['u', 'n', 'k', 'n', 'o', 'w', 'n'],
        EngineVersion::VER_UE4_OLDEST_LOADABLE_PACKAGE => seq!['o', 'l', 'd', 'e', 's', 't'],
        EngineVersion::VER_UE4_0 => seq!['4', '.', '0'],
        EngineVersion::VER_UE4_1 => seq!['4', '.', '1'],
        EngineVersion::VER_UE4_2 => seq!['4', '.', '2'],
        EngineVersion::VER_UE4_3 => seq!['4', '.', '3'],
        EngineVersion::VER_UE4_4 => seq!['4', '.', '4'],
        EngineVersion::VER_UE4_5 => seq!['4', '.', '5'],
        EngineVersion::VER_UE4_6 => seq!['4', '.', '6'],
        EngineVersion::VER_UE4_7 => seq!['4', '.', '7'],
        EngineVersion::VER_UE4_8 => seq!['4', '.', '8'],
        EngineVersion::VER_UE4_9 => seq!['4', '.', '9'],
        EngineVersion::VER_UE4_10 => seq!['4', '.', '1', '0'],
        EngineVersion::VER_UE4_11 => seq!['4', '.', '1', '1'],
        EngineVersion::VER_UE4_12 => seq!['4', '.', '1', '2'],
        EngineVersion::VER_UE4_13 => seq!['4', '.', '1', '3'],
        EngineVersion::VER_UE4_14 => seq!['4', '.', '1', '4'],
        EngineVersion::VER_UE4_15 => seq!['4', '.', '1', '5'],
        EngineVersion::VER_UE4_16 => seq!['4', '.', '1', '6'],
        EngineVersion::VER_UE4_17 => seq!['4', '.', '1', '7'],
        EngineVersion::VER_UE4_18 => seq!['4', '.', '1', '8'],
        EngineVersion::VER_UE4_19 => seq!['4', '.', '1', '9'],
        EngineVersion::VER_UE4_20 => seq!['4', '.', '2', '0'],
        EngineVersion::VER_UE4_21 => seq!['4', '.', '2', '1'],
        EngineVersion::VER_UE4_22 => seq!['4', '.', '2', '2'],
        EngineVersion::VER_UE4_23 => seq!['4', '.', '2', '3'],
        EngineVersion::VER_UE4_24 => seq!['4', '.', '2', '4'],
        EngineVersion::VER_UE4_25 => seq!['4', '.', '2', '5'],
        EngineVersion::VER_UE4_26 => seq!['4', '.', '2', '6'],
        EngineVersion::VER_UE4_27 => seq!['4', '.', '2', '7'],
        EngineVersion::VER_UE5_0 => seq!['5', '.', '0'],
        EngineVersion::VER_UE5_1 => seq!['5', '.', '1'],
        EngineVersion::VER_UE5_2 => seq!['5', '.', '2'],
    }
}

/// `version_at` and `version_index` are inverse on the table.
pub proof fn lemma_version_table(v: EngineVersion)
    ensures
        0 <= version_index(v) < VERSION_COUNT,
        version_at(version_index(v)) == v,
{
}


/// The command-line name of a version, as a string slice.
pub fn version_str(v: EngineVersion) -> (s: &'static str)
    ensures
        s@ == version_name(v),
{
    match v {
        EngineVersion::UNKNOWN => {
            proof {
                reveal_strlit("unknown");
            }
            "unknown"
        },
        EngineVersion::VER_UE4_OLDEST_LOADABLE_PACKAGE => {
            proof {
                reveal_strlit("oldest");
            }
            "oldest"
        },
        EngineVersion::VER_UE4_0 => {
            proof {
                reveal_strlit("4.0");
            }
            "4.0"
        },
        EngineVersion::VER_UE4_1 => {
            proof {
                reveal_strlit("4.1");
            }
            "4.1"
        },
        EngineVersion::VER_UE4_2 => {
            proof {
                reveal_strlit("4.2");
            }
            "4.2"
        },
        EngineVersion::VER_UE4_3 => {
            proof {
                reveal_strlit("4.3");
            }
            "4.3"
        },
        EngineVersion::VER_UE4_4 => {
            proof {
                reveal_strlit("4.4");
            }
            "4.4"
        },
        EngineVersion::VER_UE4_5 => {
            proof {
                reveal_strlit("4.5");
            }
            "4.5"
        },
        EngineVersion::VER_UE4_6 => {
            proof {
                reveal_strlit("4.6");
            }
            "4.6"
        },
        EngineVersion::VER_UE4_7 => {
            proof {
                reveal_strlit("4.7");
            }
            "4.7"
        },
        EngineVersion::VER_UE4_8 => {
            proof {
                reveal_strlit("4.8");
            }
            "4.8"
        },
        EngineVersion::VER_UE4_9 => {
            proof {
                reveal_strlit("4.9");
            }
            "4.9"
        },
        EngineVersion::VER_UE4_10 => {
            proof {
                reveal_strlit("4.10");
            }
            "4.10"
        },
        EngineVersion::VER_UE4_11 => {
            proof {
                reveal_strlit("4.11");
            }
            "4.11"
        },
        EngineVersion::VER_UE4_12 => {
            proof {
                reveal_strlit("4.12");
            }
            "4.12"
        },
        EngineVersion::VER_UE4_13 => {
            proof {
                reveal_strlit("4.13");
            }
            "4.13"
        },
        EngineVersion::VER_UE4_14 => {
            proof {
                reveal_strlit("4.14");
            }
            "4.14"
        },
        EngineVersion::VER_UE4_15 => {
            proof {
                reveal_strlit("4.15");
            }
            "4.15"
        },
        EngineVersion::VER_UE4_16 => {
            proof {
                reveal_strlit("4.16");
            }
            "4.16"
        },
        EngineVersion::VER_UE4_17 => {
            proof {
                reveal_strlit("4.17");
            }
            "4.17"
        },
        EngineVersion::VER_UE4_18 => {
            proof {
                reveal_strlit("4.18");
            }
            "4.18"
        },
        EngineVersion::VER_UE4_19 => {
            proof {
                reveal_strlit("4.19");
            }
            "4.19"
        },
        EngineVersion::VER_UE4_20 => {
            proof {
                reveal_strlit("4.20");
            }
            "4.20"
        },
        EngineVersion::VER_UE4_21 => {
            proof {
                reveal_strlit("4.21");
            }
            "4.21"
        },
        EngineVersion::VER_UE4_22 => {
            proof {
                reveal_strlit("4.22");
            }
            "4.22"
        },
        EngineVersion::VER_UE4_23 => {
            proof {
                reveal_strlit("4.23");
            }
            "4.23"
        },
        EngineVersion::VER_UE4_24 => {
            proof {
                reveal_strlit("4.24");
            }
            "4.24"
        },
        EngineVersion::VER_UE4_25 => {
            proof {
                reveal_strlit("4.25");
            }
            "4.25"
        },
        EngineVersion::VER_UE4_26 => {
            proof {
                reveal_strlit("4.26");
            }
            "4.26"
        },
        EngineVersion::VER_UE4_27 => {
            proof {
                reveal_strlit("4.27");
            }
            "4.27"
        },
        EngineVersion::VER_UE5_0 => {
            proof {
                reveal_strlit("5.0");
            }
            "5.0"
        },
        EngineVersion::VER_UE5_1 => {
            proof {
                reveal_strlit("5.1");
            }
            "5.1"
        },
        EngineVersion::VER_UE5_2 => {
            proof {
                reveal_strlit("5.2");
            }
            "5.2"
        },
    }
}

/// The engine version at position `i` of the version table.
pub fn version_from_index(i: usize) -> (v: EngineVersion)
    requires
        i < VERSION_COUNT,
    ensures
        v == version_at(i as int),
        version_index(v) == i,
{
    if i == 0 {
        EngineVersion::UNKNOWN
    } else if i == 1 {
        EngineVersion::VER_UE4_OLDEST_LOADABLE_PACKAGE
    } else if i == 2 {
        EngineVersion::VER_UE4_0
    } else if i == 3 {
        EngineVersion::VER_UE4_1
    } else if i == 4 {
        EngineVersion::VER_UE4_2
    } else if i == 5 {
        EngineVersion::VER_UE4_3
    } else if i == 6 {
        EngineVersion::VER_UE4_4
    } else if i == 7 {
        EngineVersion::VER_UE4_5
    } else if i == 8 {
        EngineVersion::VER_UE4_6
    } else if i == 9 {
        EngineVersion::VER_UE4_7
    } else if i == 10 {
        EngineVersion::VER_UE4_8
    } else if i == 11 {
        EngineVersion::VER_UE4_9
    } else if i == 12 {
        EngineVersion::VER_UE4_10
    } else if i == 13 {
        EngineVersion::VER_UE4_11
    } else if i == 14 {
        EngineVersion::VER_UE4_12
    } else if i == 15 {
        EngineVersion::VER_UE4_13
    } else if i == 16 {
        EngineVersion::VER_UE4_14
    } else if i == 17 {
        EngineVersion::VER_UE4_15
    } else if i == 18 {
        EngineVersion::VER_UE4_16
    } else if i == 19 {
        EngineVersion::VER_UE4_17
    } else if i == 20 {
        EngineVersion::VER_UE4_18
    } else if i == 21 {
        EngineVersion::VER_UE4_19
    } else if i == 22 {
        EngineVersion::VER_UE4_20
    } else if i == 23 {
        EngineVersion::VER_UE4_21
    } else if i == 24 {
        EngineVersion::VER_UE4_22
    } else if i == 25 {
        EngineVersion::VER_UE4_23
    } else if i == 26 {
        EngineVersion::VER_UE4_24
    } else if i == 27 {
        EngineVersion::VER_UE4_25
    } else if i == 28 {
        EngineVersion::VER_UE4_26
    } else if i == 29 {
        EngineVersion::VER_UE4_27
    } else if i == 30 {
        EngineVersion::VER_UE5_0
    } else if i == 31 {
        EngineVersion::VER_UE5_1
    } else {
        EngineVersion::VER_UE5_2
    }
}

/// Whether `c` has the Unicode `White_Space` property, which is what
/// `char::is_whitespace` tests.
pub open spec fn is_white_space(c: char) -> bool {
    let n = c as int;
    ||| 0x09 <= n <= 0x0d
    ||| n == 0x20
    ||| n == 0x85
    ||| n == 0xa0
    ||| n == 0x1680
    ||| 0x2000 <= n <= 0x200a
    ||| n == 0x2028
    ||| n == 0x2029
    ||| n == 0x202f
    ||| n == 0x205f
    ||| n == 0x3000
}

/// `s` without its leading white space.
pub open spec fn trim_start(s: Seq<char>) -> Seq<char>
    decreases s.len(),
{
    if s.len() > 0 && is_white_space(s[0]) {
        trim_start(s.drop_first())
    } else {
        s
    }
}

/// `s` without its trailing white space.
pub open spec fn trim_end(s: Seq<char>) -> Seq<char>
    decreases s.len(),
{
    if s.len() > 0 && is_white_space(s.last()) {
        trim_end(s.drop_last())
    } else {
        s
    }
}

/// `s` without leading and trailing white space.
pub open spec fn trimmed(s: Seq<char>) -> Seq<char> {
    trim_end(trim_start(s))
}

/// Calls `str::trim`, which the standard library documents as returning the
/// slice with leading and trailing white space removed, white space being the
/// Unicode `White_Space` property.
#[verifier::external_body]
fn trim(s: &str) -> (t: &str)
    ensures
        t@ == trimmed(s@),
{
    s.trim()
}

/// An engine version chosen by its command-line name.
#[derive(Clone, Copy, Debug, PartialEq, Eq, Structural)]
pub struct Version(pub EngineVersion);

/// Parses command-line engine version names.
#[derive(Clone, Copy, Debug)]
pub struct VersionParser;

impl VersionParser {
    /// The version whose name equals `value` once leading and trailing white
    /// space is removed; `None` where no version has that name.
    pub fn parse(value: &str) -> (res: Option<Version>)
        ensures
            res matches Some(v) ==> version_name(v.0) == trimmed(value@),
            res is None <==> (forall|e: EngineVersion| version_name(e) != trimmed(value@)),
    {
        let t = trim(value);
        let mut i: usize = 0;
        while i < VERSION_COUNT
            invariant
                t@ == trimmed(value@),
                i <= VERSION_COUNT,
                forall|j: int| 0 <= j < i ==> version_name(#[trigger] version_at(j)) != t@,
            decreases VERSION_COUNT - i,
        {
            let v = version_from_index(i);
            if str_equal(t, version_str(v)) {
                return Some(Version(v));
            }
            i = i + 1;
        }
        proof {
            assert forall|e: EngineVersion| version_name(e) != t@ by {
                lemma_version_table(e);
                assert(version_name(version_at(version_index(e))) != t@);
            }
        }
        None
    }
}

/// Distinct versions have distinct names, so a name picks at most one version.
pub proof fn lemma_version_names_distinct(a: EngineVersion, b: EngineVersion)
    requires
        version_name(a) == version_name(b),
    ensures
        a == b,
{
    assert(version_name(a).len() == version_name(b).len());
    assert(version_name(a)[0] == version_name(b)[0]);
    assert(version_name(a)[1] == version_name(b)[1]);
    assert(version_name(a)[2] == version_name(b)[2]);
    if version_name(a).len() > 3 {
        assert(version_name(a)[3] == version_name(b)[3]);
    }
}

/// A version's own name holds no surrounding white space, so parsing it, with
/// or without surrounding white space, gives that version back.
pub proof fn lemma_version_name_trimmed(v: EngineVersion)
    ensures
        trimmed(version_name(v)) == version_name(v),
        forall|e: EngineVersion| version_name(e) == trimmed(version_name(v)) ==> e == v,
{
    let s = version_name(v);
    assert(!is_white_space(s[0]));
    assert(trim_start(s) == s);
    assert(!is_white_space(s.last()));
    assert(trim_end(s) == s);
    assert forall|e: EngineVersion| version_name(e) == trimmed(version_name(v)) implies e == v by {
        lemma_version_names_distinct(e, v);
    }
}

/// The character of the decimal digit `d`.
pub open spec fn digit_char(d: nat) -> char {
    (d + 48) as char
}

/// The decimal numeral of `n`, most significant digit first.
pub open spec fn decimal(n: nat) -> Seq<char>
    decreases n,
{
    if n < 10 {
        seq![digit_char(n)]
    } else {
        decimal(n / 10).push(digit_char(n % 10))
    }
}

/// The digit characters, in order.
proof fn lemma_digit_chars()
    ensures
        digit_char(0) == '0',
        digit_char(1) == '1',
        digit_char(2) == '2',
        digit_char(3) == '3',
        digit_char(4) == '4',
        digit_char(5) == '5',
        digit_char(6) == '6',
        digit_char(7) == '7',
        digit_char(8) == '8',
        digit_char(9) == '9',
{
}

/// Whether the version at position `i` of the version table is named as the
/// engine numbers it: the UE4 releases `4.0` to `4.27` in table order from
/// position 2, the UE5 releases `5.0` to `5.2` from position 30.
pub open spec fn numbered_name(i: int) -> bool {
    &&& 2 <= i < 30 ==> version_name(version_at(i)) == seq!['4', '.'] + decimal((i - 2) as nat)
    &&& 30 <= i < 33 ==> version_name(version_at(i)) == seq!['5', '.'] + decimal((i - 30) as nat)
}

/// Each engine release is named by its major and minor number, the minor
/// number counting up from 0 through the table; so parsing `4.26` gives
/// `VER_UE4_26`, `4.25` gives `VER_UE4_25`, and so on.
pub proof fn lemma_version_names_numbered(i: int)
    requires
        2 <= i < VERSION_COUNT,
    ensures
        numbered_name(i),
{
    lemma_digit_chars();
    if i == 2 {
        assert(decimal(0) == seq![digit_char(0)]);
        assert(version_name(version_at(2)) =~= seq!['4', '.'] + decimal(0));
    } else if i == 3 {
        assert(decimal(1) == seq![digit_char(1)]);
        assert(version_name(version_at(3)) =~= seq!['4', '.'] + decimal(1));
    } else if i == 4 {
        assert(decimal(2) == seq![digit_char(2)]);
        assert(version_name(version_at(4)) =~= seq!['4', '.'] + decimal(2));
    } else if i == 5 {
        assert(decimal(3) == seq![digit_char(3)]);
        assert(version_name(version_at(5)) =~= seq!['4', '.'] + decimal(3));
    } else if i == 6 {
        assert(decimal(4) == seq![digit_char(4)]);
        assert(version_name(version_at(6)) =~= seq!['4', '.'] + decimal(4));
    } else if i == 7 {
        assert(decimal(5) == seq![digit_char(5)]);
        assert(version_name(version_at(7)) =~= seq!['4', '.'] + decimal(5));
    } else if i == 8 {
        assert(decimal(6) == seq![digit_char(6)]);
        assert(version_name(version_at(8)) =~= seq!['4', '.'] + decimal(6));
    } else if i == 9 {
        assert(decimal(7) == seq![digit_char(7)]);
        assert(version_name(version_at(9)) =~= seq!['4', '.'] + decimal(7));
    } else if i == 10 {
        assert(decimal(8) == seq![digit_char(8)]);
        assert(version_name(version_at(10)) =~= seq!['4', '.'] + decimal(8));
    } else if i == 11 {
        assert(decimal(9) == seq![digit_char(9)]);
        assert(version_name(version_at(11)) =~= seq!['4', '.'] + decimal(9));
    } else if i == 12 {
        assert(decimal(10) == decimal(1).push(digit_char(0)));
        assert(decimal(1) == seq![digit_char(1)]);
        assert(version_name(version_at(12)) =~= seq!['4', '.'] + decimal(10));
    } else if i == 13 {
        assert(decimal(11) == decimal(1).push(digit_char(1)));
        assert(decimal(1) == seq![digit_char(1)]);
        assert(version_name(version_at(13)) =~= seq!['4', '.'] + decimal(11));
    } else if i == 14 {
        assert(decimal(12) == decimal(1).push(digit_char(2)));
        assert(decimal(1) == seq![digit_char(1)]);
        assert(version_name(version_at(14)) =~= seq!['4', '.'] + decimal(12));
    } else if i == 15 {
        assert(decimal(13) == decimal(1).push(digit_char(3)));
        assert(decimal(1) == seq![digit_char(1)]);
        assert(version_name(version_at(15)) =~= seq!['4', '.'] + decimal(13));
    } else if i == 16 {
        assert(decimal(14) == decimal(1).push(digit_char(4)));
        assert(decimal(1) == seq![digit_char(1)]);
        assert(version_name(version_at(16)) =~= seq!['4', '.'] + decimal(14));
    } else if i == 17 {
        assert(decimal(15) == decimal(1).push(digit_char(5)));
        assert(decimal(1) == seq![digit_char(1)]);
        assert(version_name(version_at(17)) =~= seq!['4', '.'] + decimal(15));
    } else if i == 18 {
        assert(decimal(16) == decimal(1).push(digit_char(6)));
        assert(decimal(1) == seq![digit_char(1)]);
        assert(version_name(version_at(18)) =~= seq!['4', '.'] + decimal(16));
    } else if i == 19 {
        assert(decimal(17) == decimal(1).push(digit_char(7)));
        assert(decimal(1) == seq![digit_char(1)]);
        assert(version_name(version_at(19)) =~= seq!['4', '.'] + decimal(17));
    } else if i == 20 {
        assert(decimal(18) == decimal(1).push(digit_char(8)));
        assert(decimal(1) == seq![digit_char(1)]);
        assert(version_name(version_at(20)) =~= seq!['4', '.'] + decimal(18));
    } else if i == 21 {
        assert(decimal(19) == decimal(1).push(digit_char(9)));
        assert(decimal(1) == seq![digit_char(1)]);
        assert(version_name(version_at(21)) =~= seq!['4', '.'] + decimal(19));
    } else if i == 22 {
        assert(decimal(20) == decimal(2).push(digit_char(0)));
        assert(decimal(2) == seq![digit_char(2)]);
        assert(version_name(version_at(22)) =~= seq!['4', '.'] + decimal(20));
    } else if i == 23 {
        assert(decimal(21) == decimal(2).push(digit_char(1)));
        assert(decimal(2) == seq![digit_char(2)]);
        assert(version_name(version_at(23)) =~= seq!['4', '.'] + decimal(21));
    } else if i == 24 {
        assert(decimal(22) == decimal(2).push(digit_char(2)));
        assert(decimal(2) == seq![digit_char(2)]);
        assert(version_name(version_at(24)) =~= seq!['4', '.'] + decimal(22));
    } else if i == 25 {
        assert(decimal(23) == decimal(2).push(digit_char(3)));
        assert(decimal(2) == seq![digit_char(2)]);
        assert(version_name(version_at(25)) =~= seq!['4', '.'] + decimal(23));
    } else if i == 26 {
        assert(decimal(24) == decimal(2).push(digit_char(4)));
        assert(decimal(2) == seq![digit_char(2)]);
        assert(version_name(version_at(26)) =~= seq!['4', '.'] + decimal(24));
    } else if i == 27 {
        assert(decimal(25) == decimal(2).push(digit_char(5)));
        assert(decimal(2) == seq![digit_char(2)]);
        assert(version_name(version_at(27)) =~= seq!['4', '.'] + decimal(25));
    } else if i == 28 {
        assert(decimal(26) == decimal(2).push(digit_char(6)));
        assert(decimal(2) == seq![digit_char(2)]);
        assert(version_name(version_at(28)) =~= seq!['4', '.'] + decimal(26));
    } else if i == 29 {
        assert(decimal(27) == decimal(2).push(digit_char(7)));
        assert(decimal(2) == seq![digit_char(2)]);
        assert(version_name(version_at(29)) =~= seq!['4', '.'] + decimal(27));
    } else if i == 30 {
        assert(decimal(0) == seq![digit_char(0)]);
        assert(version_name(version_at(30)) =~= seq!['5', '.'] + decimal(0));
    } else if i == 31 {
        assert(decimal(1) == seq![digit_char(1)]);
        assert(version_name(version_at(31)) =~= seq!['5', '.'] + decimal(1));
    } else if i == 32 {
        assert(decimal(2) == seq![digit_char(2)]);
        assert(version_name(version_at(32)) =~= seq!['5', '.'] + decimal(2));
    }
}

} // verus!
