use ora::xtask::{parse_xtask_arguments, XtaskCommand};

fn parse(arguments: &[&str]) -> Result<XtaskCommand, String> {
    parse_xtask_arguments(&arguments.iter().map(|a| a.to_string()).collect())
}

#[test]
fn accepts_export_contracts() {
    assert_eq!(parse(&["export-contracts"]), Ok(XtaskCommand::ExportContracts));
}

#[test]
fn reports_usage_without_command() {
    assert_eq!(parse(&[]), Err("usage: cargo xtask export-contracts".to_string()));
}

#[test]
fn rejects_unknown_command() {
    assert_eq!(
        parse(&["build"]),
        Err("unknown xtask command `build`".to_string())
    );
}

#[test]
fn rejects_extra_arguments() {
    assert_eq!(
        parse(&["export-contracts", "--force"]),
        Err("unexpected argument `--force`".to_string())
    );
}
