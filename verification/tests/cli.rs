use charset_eval::cli::plan_for;
use charset_eval::cli::split_language;
use charset_eval::cli::CommandKind;
use charset_eval::cli::RunPlan;
use charset_eval::cli::UsageError;
use charset_eval::evaluate::CheckMode;

fn plan(kind: CommandKind, use_tld: bool, full_articles: bool, mode: CheckMode) -> Result<RunPlan, UsageError> {
    Ok(RunPlan { kind, use_tld, full_articles, mode })
}

fn text(s: &str) -> Vec<char> {
    s.chars().collect()
}

#[test]
fn command_words() {
    assert_eq!(plan_for("check"), plan(CommandKind::Check, false, false, CheckMode::All));
    assert_eq!(plan_for("download"), plan(CommandKind::Download, false, false, CheckMode::All));
    assert_eq!(plan_for("all"), plan(CommandKind::Sweep, false, false, CheckMode::All));
    assert_eq!(plan_for("tld"), plan(CommandKind::Sweep, true, false, CheckMode::Ng));
    assert_eq!(plan_for("full"), plan(CommandKind::Sweep, false, true, CheckMode::All));
    assert_eq!(plan_for("full_tld"), plan(CommandKind::Sweep, true, true, CheckMode::Ng));
    assert_eq!(plan_for("all_ng"), plan(CommandKind::Sweep, false, false, CheckMode::Ng));
    assert_eq!(plan_for("full_ng"), plan(CommandKind::Sweep, false, true, CheckMode::Ng));
    assert_eq!(plan_for("bench_ng"), plan(CommandKind::Bench, false, true, CheckMode::Ng));
    assert_eq!(plan_for("bench_ced"), plan(CommandKind::Bench, false, true, CheckMode::Ced));
    assert_eq!(plan_for("lang"), plan(CommandKind::Language, false, false, CheckMode::All));
    assert_eq!(plan_for("langtld"), plan(CommandKind::Language, true, false, CheckMode::All));
}

#[test]
fn unknown_command_words() {
    assert_eq!(plan_for(""), Err(UsageError::UnknownCommand));
    assert_eq!(plan_for("ALL"), Err(UsageError::UnknownCommand));
    assert_eq!(plan_for("all "), Err(UsageError::UnknownCommand));
    assert_eq!(plan_for("bench"), Err(UsageError::UnknownCommand));
}

#[test]
fn exit_codes() {
    assert_eq!(UsageError::ProgramNameMissing.exit_code(), -1);
    assert_eq!(UsageError::CommandMissing.exit_code(), -2);
    assert_eq!(UsageError::EncodingLabelMissing.exit_code(), -3);
    assert_eq!(UsageError::TestInputMissing.exit_code(), -3);
    assert_eq!(UsageError::DirectoryMissing.exit_code(), -3);
    assert_eq!(UsageError::LanguageMissing.exit_code(), -3);
    assert_eq!(UsageError::UnknownCommand.exit_code(), -3);
    assert_eq!(UsageError::NoTitles.exit_code(), -4);
    assert_eq!(UsageError::NoArticles.exit_code(), -4);
}

#[test]
fn language_argument_splits_at_the_last_hyphen() {
    assert_eq!(split_language(&text("ru-ru")), Some((text("ru"), text("ru"))));
    assert_eq!(split_language(&text("zh-hans-cn")), Some((text("zh-hans"), text("cn"))));
    assert_eq!(split_language(&text("ru-")), Some((text("ru"), text(""))));
    assert_eq!(split_language(&text("-ru")), Some((text(""), text("ru"))));
    assert_eq!(split_language(&text("-")), Some((text(""), text(""))));
    assert_eq!(split_language(&text("ru")), None);
    assert_eq!(split_language(&text("")), None);
}
