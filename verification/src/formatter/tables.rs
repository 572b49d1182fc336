//! The fixed tables of canonical command and parameter spellings.

use crate::chars::fold;
use vstd::prelude::*;

verus! {

/// The canonical spellings of the commands that the formatter knows.
pub open spec fn command_table() -> Seq<Seq<char>> {
    seq![
        "Add-Content"@,
        "Compare-Object"@,
        "ConvertFrom-Json"@,
        "ConvertTo-Json"@,
        "Export-Csv"@,
        "ForEach-Object"@,
        "Get-ChildItem"@,
        "Get-Command"@,
        "Get-Content"@,
        "Get-Date"@,
        "Get-Item"@,
        "Get-Location"@,
        "Get-Process"@,
        "Import-Csv"@,
        "Import-Module"@,
        "Install-Module"@,
        "Invoke-Command"@,
        "Invoke-Expression"@,
        "Invoke-Formatter"@,
        "Join-Path"@,
        "Measure-Object"@,
        "New-Item"@,
        "Out-File"@,
        "Remove-Item"@,
        "Resolve-Path"@,
        "Select-Object"@,
        "Set-Content"@,
        "Set-Item"@,
        "Set-Location"@,
        "Set-StrictMode"@,
        "Sort-Object"@,
        "Split-Path"@,
        "Start-Process"@,
        "Stop-Process"@,
        "Test-Path"@,
        "Where-Object"@,
        "Write-Debug"@,
        "Write-Error"@,
        "Write-Host"@,
        "Write-Output"@,
        "Write-Verbose"@,
        "Write-Warning"@,
    ]
}

/// The canonical spellings of the parameters that the formatter knows.
pub open spec fn parameter_table() -> Seq<Seq<char>> {
    seq![
        "All"@,
        "ArgumentList"@,
        "As"@,
        "Command"@,
        "Confirm"@,
        "Depth"@,
        "Debug"@,
        "ErrorAction"@,
        "Exclude"@,
        "File"@,
        "Filter"@,
        "Force"@,
        "GitChanged"@,
        "Help"@,
        "Include"@,
        "InputObject"@,
        "LiteralPath"@,
        "ModuleName"@,
        "Name"@,
        "NoProfile"@,
        "OutputPath"@,
        "Path"@,
        "PipelineVariable"@,
        "Recurse"@,
        "Scope"@,
        "ScriptBlock"@,
        "Settings"@,
        "ShowOnly"@,
        "Strict"@,
        "Value"@,
        "Verbose"@,
        "WarningAction"@,
        "WhatIf"@,
        "Write"@,
    ]
}

/// The first spelling of `table`, at or after `from`, that folds to `lowered`.
pub open spec fn first_match(table: Seq<Seq<char>>, lowered: Seq<char>, from: int) -> Option<
    Seq<char>,
>
    decreases table.len() - from,
{
    if from < 0 || from >= table.len() {
        None
    } else if fold(table[from]) == lowered {
        Some(table[from])
    } else {
        first_match(table, lowered, from + 1)
    }
}

/// The canonical spelling of the command whose lower-case form is `lowered`.
pub open spec fn command_spelling(lowered: Seq<char>) -> Option<Seq<char>> {
    first_match(command_table(), lowered, 0)
}

/// The canonical spelling of the parameter whose lower-case form is `lowered`.
pub open spec fn parameter_spelling(lowered: Seq<char>) -> Option<Seq<char>> {
    first_match(parameter_table(), lowered, 0)
}

/// A spelling found in a table folds to what was looked up.
pub proof fn lemma_first_match_folds(table: Seq<Seq<char>>, lowered: Seq<char>, from: int)
    ensures
        first_match(table, lowered, from) matches Some(name) ==> fold(name) == lowered,
    decreases table.len() - from,
{
    if 0 <= from < table.len() && fold(table[from]) != lowered {
        lemma_first_match_folds(table, lowered, from + 1);
    }
}

/// The command at position `k` of the table.
pub fn command_at(k: usize) -> (name: &'static str)
    requires
        k < command_table().len(),
    ensures
        name@ == command_table()[k as int],
{
    match k {
        0 => "Add-Content",
        1 => "Compare-Object",
        2 => "ConvertFrom-Json",
        3 => "ConvertTo-Json",
        4 => "Export-Csv",
        5 => "ForEach-Object",
        6 => "Get-ChildItem",
        7 => "Get-Command",
        8 => "Get-Content",
        9 => "Get-Date",
        10 => "Get-Item",
        11 => "Get-Location",
        12 => "Get-Process",
        13 => "Import-Csv",
        14 => "Import-Module",
        15 => "Install-Module",
        16 => "Invoke-Command",
        17 => "Invoke-Expression",
        18 => "Invoke-Formatter",
        19 => "Join-Path",
        20 => "Measure-Object",
        21 => "New-Item",
        22 => "Out-File",
        23 => "Remove-Item",
        24 => "Resolve-Path",
        25 => "Select-Object",
        26 => "Set-Content",
        27 => "Set-Item",
        28 => "Set-Location",
        29 => "Set-StrictMode",
        30 => "Sort-Object",
        31 => "Split-Path",
        32 => "Start-Process",
        33 => "Stop-Process",
        34 => "Test-Path",
        35 => "Where-Object",
        36 => "Write-Debug",
        37 => "Write-Error",
        38 => "Write-Host",
        39 => "Write-Output",
        40 => "Write-Verbose",
        _ => "Write-Warning",
    }
}

/// The parameter at position `k` of the table.
pub fn parameter_at(k: usize) -> (name: &'static str)
    requires
        k < parameter_table().len(),
    ensures
        name@ == parameter_table()[k as int],
{
    match k {
        0 => "All",
        1 => "ArgumentList",
        2 => "As",
        3 => "Command",
        4 => "Confirm",
        5 => "Depth",
        6 => "Debug",
        7 => "ErrorAction",
        8 => "Exclude",
        9 => "File",
        10 => "Filter",
        11 => "Force",
        12 => "GitChanged",
        13 => "Help",
        14 => "Include",
        15 => "InputObject",
        16 => "LiteralPath",
        17 => "ModuleName",
        18 => "Name",
        19 => "NoProfile",
        20 => "OutputPath",
        21 => "Path",
        22 => "PipelineVariable",
        23 => "Recurse",
        24 => "Scope",
        25 => "ScriptBlock",
        26 => "Settings",
        27 => "ShowOnly",
        28 => "Strict",
        29 => "Value",
        30 => "Verbose",
        31 => "WarningAction",
        32 => "WhatIf",
        _ => "Write",
    }
}

/// How many commands the table holds.
pub const COMMAND_COUNT: usize = 42;

/// How many parameters the table holds.
pub const PARAMETER_COUNT: usize = 34;

/// The tables have as many entries as the constants say.
pub proof fn lemma_table_sizes()
    ensures
        command_table().len() == COMMAND_COUNT,
        parameter_table().len() == PARAMETER_COUNT,
{
}

} // verus!
