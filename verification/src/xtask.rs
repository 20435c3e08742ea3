use vstd::prelude::*;

verus! {

/// The workflows the workspace task runner offers.
#[derive(Clone, Copy, Debug, PartialEq, Eq, Structural)]
pub enum XtaskCommand {
    /// Regenerates the TypeScript contract types and SDK.
    ExportContracts,
}

/// Name of the contract export workflow on the command line.
pub const EXPORT_CONTRACTS: &'static str = "export-contracts";

/// The outcome of parsing the task runner's arguments (after the program name):
/// exactly one argument, naming a known workflow.
pub open spec fn xtask_parse(arguments: Seq<Seq<char>>, res: Result<XtaskCommand, String>) -> bool {
    if arguments.len() == 0 {
        res matches Err(message) && message@ == "usage: cargo xtask export-contracts"@
    } else if arguments[0] != EXPORT_CONTRACTS@ {
        res matches Err(message) && message@ == "unknown xtask command `"@ + arguments[0] + "`"@
    } else if arguments.len() > 1 {
        res matches Err(message) && message@ == "unexpected argument `"@ + arguments[1] + "`"@
    } else {
        res == Ok::<XtaskCommand, String>(XtaskCommand::ExportContracts)
    }
}

/// The views of a list of strings.
pub open spec fn string_views(strings: Seq<String>) -> Seq<Seq<char>> {
    strings.map_values(|s: String| s@)
}

/// Parses the task runner's command line (without the program name) and
/// selects the matching workflow.
pub fn parse_xtask_arguments(arguments: &Vec<String>) -> (res: Result<XtaskCommand, String>)
    ensures
        xtask_parse(string_views(arguments@), res),
{
    if arguments.len() == 0 {
        return Err("usage: cargo xtask export-contracts".to_string());
    }
    let command = &arguments[0];
    let expected = EXPORT_CONTRACTS.to_string();
    if !(*command == expected) {
        let message = "unknown xtask command `".to_string().concat(command.as_str()).concat("`");
        return Err(message);
    }
    if arguments.len() > 1 {
        let message = "unexpected argument `".to_string().concat(arguments[1].as_str()).concat("`");
        return Err(message);
    }
    Ok(XtaskCommand::ExportContracts)
}

} // verus!
