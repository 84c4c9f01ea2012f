//! The command surface: what each command word asks for, and the exit codes
//! of the ways in which a command line can be wrong.

use crate::evaluate::CheckMode;
use crate::text::str_eq;
use vstd::prelude::*;

verus! {

/// What a command does.
#[derive(Clone, Copy, Debug, PartialEq, Eq, Structural)]
pub enum CommandKind {
    /// Score the detectors on one literal string.
    Check,
    /// Fetch the title dumps.
    Download,
    /// Run every task of the registry, in parallel.
    Sweep,
    /// Run every task of the registry one after the other, on full
    /// articles, for timing.
    Bench,
    /// Run one language's titles against one encoding.
    Language,
}

/// The settings that a command word stands for.
#[derive(Clone, Copy, Debug, PartialEq, Eq, Structural)]
pub struct RunPlan {
    pub kind: CommandKind,
    /// Whether the detectors are given the country code as a hint.
    pub use_tld: bool,
    /// Whether the corpus is full articles rather than titles.
    pub full_articles: bool,
    pub mode: CheckMode,
}

/// The ways in which a command line or its corpus can be wrong.
#[derive(Clone, Copy, Debug, PartialEq, Eq, Structural)]
pub enum UsageError {
    ProgramNameMissing,
    CommandMissing,
    EncodingLabelMissing,
    TestInputMissing,
    DirectoryMissing,
    LanguageMissing,
    UnknownCommand,
    NoTitles,
    NoArticles,
}

/// The exit code of each error: one code for a missing program name, one
/// for a missing command, one for any other fault of the command line, one
/// for a language without a corpus file.
pub open spec fn error_code(error: UsageError) -> int {
    match error {
        UsageError::ProgramNameMissing => -1,
        UsageError::CommandMissing => -2,
        UsageError::NoTitles | UsageError::NoArticles => -4,
        _ => -3,
    }
}

/// The settings that a command word stands for, `None` for an unknown word.
pub open spec fn command_plan(word: Seq<char>) -> Option<RunPlan> {
    if word == "check"@ {
        Some(
            RunPlan {
                kind: CommandKind::Check,
                use_tld: false,
                full_articles: false,
                mode: CheckMode::All,
            },
        )
    } else if word == "download"@ {
        Some(
            RunPlan {
                kind: CommandKind::Download,
                use_tld: false,
                full_articles: false,
                mode: CheckMode::All,
            },
        )
    } else if word == "all"@ || word == "tld"@ || word == "full"@ || word == "full_tld"@ || word
        == "all_ng"@ || word == "full_ng"@ {
        Some(
            RunPlan {
                kind: CommandKind::Sweep,
                use_tld: word == "tld"@ || word == "full_tld"@,
                full_articles: word == "full"@ || word == "full_tld"@ || word == "full_ng"@,
                mode: if word == "all"@ || word == "full"@ {
                    CheckMode::All
                } else {
                    CheckMode::Ng
                },
            },
        )
    } else if word == "bench_ng"@ || word == "bench_ced"@ {
        Some(
            RunPlan {
                kind: CommandKind::Bench,
                use_tld: false,
                full_articles: true,
                mode: if word == "bench_ng"@ {
                    CheckMode::Ng
                } else {
                    CheckMode::Ced
                },
            },
        )
    } else if word == "lang"@ || word == "langtld"@ {
        Some(
            RunPlan {
                kind: CommandKind::Language,
                use_tld: word == "langtld"@,
                full_articles: false,
                mode: CheckMode::All,
            },
        )
    } else {
        None
    }
}

impl UsageError {
    /// The exit code of the process for this error.
    pub fn exit_code(self) -> (code: i32)
        ensures
            code == error_code(self),
    {
        match self {
            UsageError::ProgramNameMissing => -1,
            UsageError::CommandMissing => -2,
            UsageError::NoTitles | UsageError::NoArticles => -4,
            _ => -3,
        }
    }
}

/// The settings that a command word stands for.
pub fn plan_for(word: &str) -> (plan: Result<RunPlan, UsageError>)
    ensures
        plan is Ok <==> command_plan(word@) is Some,
        plan matches Ok(p) ==> command_plan(word@) == Some(p),
        plan matches Err(e) ==> e == UsageError::UnknownCommand,
{
    let all = str_eq(word, "all");
    let tld = str_eq(word, "tld");
    let full = str_eq(word, "full");
    let full_tld = str_eq(word, "full_tld");
    let all_ng = str_eq(word, "all_ng");
    let full_ng = str_eq(word, "full_ng");
    let bench_ng = str_eq(word, "bench_ng");
    let bench_ced = str_eq(word, "bench_ced");
    let lang = str_eq(word, "lang");
    let langtld = str_eq(word, "langtld");
    if str_eq(word, "check") {
        Ok(
            RunPlan {
                kind: CommandKind::Check,
                use_tld: false,
                full_articles: false,
                mode: CheckMode::All,
            },
        )
    } else if str_eq(word, "download") {
        Ok(
            RunPlan {
                kind: CommandKind::Download,
                use_tld: false,
                full_articles: false,
                mode: CheckMode::All,
            },
        )
    } else if all || tld || full || full_tld || all_ng || full_ng {
        Ok(
            RunPlan {
                kind: CommandKind::Sweep,
                use_tld: tld || full_tld,
                full_articles: full || full_tld || full_ng,
                mode: if all || full {
                    CheckMode::All
                } else {
                    CheckMode::Ng
                },
            },
        )
    } else if bench_ng || bench_ced {
        Ok(
            RunPlan {
                kind: CommandKind::Bench,
                use_tld: false,
                full_articles: true,
                mode: if bench_ng {
                    CheckMode::Ng
                } else {
                    CheckMode::Ced
                },
            },
        )
    } else if lang || langtld {
        Ok(
            RunPlan {
                kind: CommandKind::Language,
                use_tld: langtld,
                full_articles: false,
                mode: CheckMode::All,
            },
        )
    } else {
        Err(UsageError::UnknownCommand)
    }
}

/// The position of the last hyphen of a text, if it has one.
pub open spec fn last_hyphen(text: Seq<char>) -> Option<int>
    decreases text.len(),
{
    if text.len() == 0 {
        None
    } else if text.last() == '-' {
        Some(text.len() - 1)
    } else {
        last_hyphen(text.drop_last())
    }
}

/// The last hyphen stands where a hyphen stands and no hyphen follows it.
pub proof fn lemma_last_hyphen(text: Seq<char>)
    ensures
        last_hyphen(text) matches Some(i) ==> 0 <= i < text.len() && text[i] == '-',
        forall|j: int|
            0 <= j < text.len() && (last_hyphen(text) matches Some(i) ==> i < j) ==> #[trigger] text[j]
                != '-',
    decreases text.len(),
{
    if text.len() > 0 && text.last() != '-' {
        let front = text.drop_last();
        lemma_last_hyphen(front);
        assert forall|j: int| 0 <= j < front.len() implies front[j] == text[j] by {}
        assert forall|j: int|
            0 <= j < text.len() && (last_hyphen(text) matches Some(i) ==> i < j) implies #[trigger] text[j]
            != '-' by {
            if j < front.len() {
                assert(front[j] != '-');
            }
        }
    }
}

/// Splits a language argument of the form tag, hyphen, country code at its
/// last hyphen. `None` where it has no hyphen.
pub fn split_language(argument: &Vec<char>) -> (parts: Option<(Vec<char>, Vec<char>)>)
    ensures
        parts is Some <==> last_hyphen(argument@) is Some,
        parts matches Some((tag, country)) ==> {
            let i = last_hyphen(argument@)->0;
            tag@ == argument@.take(i) && country@ == argument@.skip(i + 1)
        },
        parts matches Some((tag, country)) ==> tag@ + seq!['-'] + country@ == argument@ && forall|
            j: int,
        |
            0 <= j < country@.len() ==> country@[j] != '-',
{
    let mut i: usize = argument.len();
    assert(argument@.take(argument@.len() as int) =~= argument@);
    while i > 0
        invariant
            i <= argument@.len(),
            last_hyphen(argument@) == last_hyphen(argument@.take(i as int)),
        decreases i,
    {
        assert(argument@.take(i as int).drop_last() =~= argument@.take(i - 1));
        if argument[i - 1] == '-' {
            let mut tag: Vec<char> = Vec::new();
            let mut k: usize = 0;
            while k < i - 1
                invariant
                    k <= i - 1 < argument@.len(),
                    tag@ == argument@.take(k as int),
                decreases i - 1 - k,
            {
                tag.push(argument[k]);
                assert(argument@.take(k + 1) =~= argument@.take(k as int).push(argument@[k as int]));
                k = k + 1;
            }
            let mut country: Vec<char> = Vec::new();
            let mut m: usize = i;
            assert(argument@.subrange(i as int, i as int) =~= Seq::<char>::empty());
            while m < argument.len()
                invariant
                    i <= m <= argument@.len(),
                    country@ == argument@.subrange(i as int, m as int),
                decreases argument@.len() - m,
            {
                country.push(argument[m]);
                assert(argument@.subrange(i as int, m + 1) =~= argument@.subrange(
                    i as int,
                    m as int,
                ).push(argument@[m as int]));
                m = m + 1;
            }
            assert(argument@.subrange(i as int, argument@.len() as int) =~= argument@.skip(
                i as int,
            ));
            assert(tag@ + seq!['-'] + country@ =~= argument@);
            assert(last_hyphen(argument@) == Some(i - 1));
            assert forall|j: int| 0 <= j < country@.len() implies country@[j] != '-' by {
                lemma_last_hyphen(argument@);
                assert(country@[j] == argument@[i + j]);
                assert(argument@[i + j] != '-');
            }
            return Some((tag, country));
        }
        i = i - 1;
    }
    None
}

} // verus!
