//! What the operator is told: the text of an abort and of a run that found no
//! changes, plain and painted for a terminal.
//!
//! The texts are built here and pinned by their contracts. The painting is
//! done by the `colored` crate, which decides from the environment whether to
//! paint at all; the contracts of the painted texts hold either way.

use vstd::prelude::*;
use colored::Colorize;
use crate::migration_unit::{AbortView, MigrationAbort, MigrationErrorKind, Remediation};
use crate::schema::MigrationObjectType;

verus! {

impl Remediation {
    /// The instruction to the operator.
    pub open spec fn advice(self) -> Seq<char> {
        match self {
            Remediation::EnableDropAndReplace =>
                "Use `-d` flag to drop and recreate field with new type!"@,
        }
    }

    /// The instruction to the operator.
    pub fn text(&self) -> (text: String)
        ensures
            text@ == self.advice(),
    {
        match self {
            Remediation::EnableDropAndReplace => String::from_str(
                "Use `-d` flag to drop and recreate field with new type!",
            ),
        }
    }
}

impl MigrationErrorKind {
    /// The broken rule, in words.
    pub open spec fn rule(self) -> Seq<char> {
        match self {
            MigrationErrorKind::IllegalPartitionKeyChange =>
                "Partition key change is not allowed!"@,
            MigrationErrorKind::IllegalClusteringKeyChange =>
                "Clustering key change is not allowed!"@,
            MigrationErrorKind::IllegalFieldTypeChange => "Field type change is not allowed."@,
            MigrationErrorKind::IllegalUdtFieldRemoval => "UDT fields removal is not allowed!"@,
            MigrationErrorKind::IllegalMaterializedViewFieldChange =>
                "Materialized view fields change is not allowed!"@,
        }
    }

    /// The broken rule, in words.
    pub fn rule_text(&self) -> (text: String)
        ensures
            text@ == self.rule(),
    {
        match self {
            MigrationErrorKind::IllegalPartitionKeyChange => String::from_str(
                "Partition key change is not allowed!",
            ),
            MigrationErrorKind::IllegalClusteringKeyChange => String::from_str(
                "Clustering key change is not allowed!",
            ),
            MigrationErrorKind::IllegalFieldTypeChange => String::from_str(
                "Field type change is not allowed.",
            ),
            MigrationErrorKind::IllegalUdtFieldRemoval => String::from_str(
                "UDT fields removal is not allowed!",
            ),
            MigrationErrorKind::IllegalMaterializedViewFieldChange => String::from_str(
                "Materialized view fields change is not allowed!",
            ),
        }
    }
}

/// The line that states the broken rule and, after a space, the remedy where
/// there is one.
pub open spec fn rule_line(abort: AbortView) -> Seq<char> {
    match abort.hint {
        Some(hint) => abort.kind.rule() + " "@ + hint.advice(),
        None => abort.kind.rule(),
    }
}

/// The plain text of an abort: the object, its kind, and on the next line the
/// rule with its remedy.
pub open spec fn abort_text(abort: AbortView) -> Seq<char> {
    "Illegal change in"@ + " "@ + abort.object_name + " "@ + abort.object_type.label() + "\n"@
        + rule_line(abort)
}

/// The plain text that reports a run without changes.
pub open spec fn no_changes_text(object_name: Seq<char>, object_type: MigrationObjectType) -> Seq<
    char,
> {
    "No changes detected in"@ + " "@ + object_name + " "@ + object_type.label()
}

/// The escape character that opens a terminal control sequence.
pub open spec fn escape() -> char {
    '\u{1b}'
}

/// `text` between the control sequence that selects `code` and the one that
/// resets the terminal.
pub open spec fn wrapped(text: Seq<char>, code: Seq<char>) -> Seq<char> {
    seq![escape(), '['] + code + seq!['m'] + text + seq![escape(), '[', '0', 'm']
}

/// Whether `out` is `text` painted with `code`: for a text that holds no
/// escape character, the text as it is or the text wrapped. Of a text that
/// holds one nothing is said.
pub open spec fn painted(text: Seq<char>, code: Seq<char>, out: Seq<char>) -> bool {
    !text.contains(escape()) ==> (out == text || out == wrapped(text, code))
}

/// The layout of an abort on the terminal.
pub open spec fn abort_layout(
    headline: Seq<char>,
    object_name: Seq<char>,
    object_type: Seq<char>,
    rule: Seq<char>,
) -> Seq<char> {
    "\n\n"@ + headline + " "@ + object_name + " "@ + object_type + "\n"@ + rule + "\n\n"@
}

/// The layout of the report of a run without changes.
pub open spec fn no_changes_layout(
    headline: Seq<char>,
    object_name: Seq<char>,
    object_type: Seq<char>,
) -> Seq<char> {
    headline + " "@ + object_name + " "@ + object_type
}

/// The colour code of the rule line: bright red, and bold for the rules on
/// user-defined types and materialized views.
pub open spec fn rule_code(kind: MigrationErrorKind) -> Seq<char> {
    match kind {
        MigrationErrorKind::IllegalUdtFieldRemoval
        | MigrationErrorKind::IllegalMaterializedViewFieldChange => seq!['1', ';', '9', '1'],
        _ => seq!['9', '1'],
    }
}

/// Whether `out` is the painted report of `abort`: the layout of an abort
/// over the headline in bright red, the name of the object in bright yellow,
/// its kind in bright magenta and the rule line in its colour.
pub open spec fn is_abort_report(abort: AbortView, out: Seq<char>) -> bool {
    exists|headline: Seq<char>, object_name: Seq<char>, object_type: Seq<char>, rule: Seq<char>|
        painted("Illegal change in"@, seq!['9', '1'], headline) && painted(
            abort.object_name,
            seq!['9', '3'],
            object_name,
        ) && painted(abort.object_type.label(), seq!['9', '5'], object_type) && painted(
            rule_line(abort),
            rule_code(abort.kind),
            rule,
        ) && out == #[trigger] abort_layout(headline, object_name, object_type, rule)
}

/// Whether `out` is the painted report of a run without changes: the
/// headline in green, the name of the object in bright yellow and its kind in
/// bright magenta, with a space between them.
pub open spec fn is_no_changes_report(
    name: Seq<char>,
    kind: MigrationObjectType,
    out: Seq<char>,
) -> bool {
    exists|headline: Seq<char>, object_name: Seq<char>, object_type: Seq<char>|
        painted("No changes detected in"@, seq!['3', '2'], headline) && painted(
            name,
            seq!['9', '3'],
            object_name,
        ) && painted(kind.label(), seq!['9', '5'], object_type) && out
            == #[trigger] no_changes_layout(headline, object_name, object_type)
}

/// Calls `Colorize::bright_red` of `colored` and renders the result. Where
/// the crate paints, a text without escape characters comes back between the
/// sequence for code 91 and the reset sequence; where it does not, as it is.
#[verifier::external_body]
fn paint_bright_red(text: &str) -> (out: String)
    ensures
        painted(text@, seq!['9', '1'], out@),
{
    text.bright_red().to_string()
}

/// Calls `Colorize::bold` and then `Colorize::bright_red` of `colored` and
/// renders the result. Where the crate paints, a text without escape
/// characters comes back between the sequence for codes 1 and 91 and the
/// reset sequence; where it does not, as it is.
#[verifier::external_body]
fn paint_bold_bright_red(text: &str) -> (out: String)
    ensures
        painted(text@, seq!['1', ';', '9', '1'], out@),
{
    text.bold().bright_red().to_string()
}

/// Calls `Colorize::bright_yellow` of `colored` and renders the result. Where
/// the crate paints, a text without escape characters comes back between the
/// sequence for code 93 and the reset sequence; where it does not, as it is.
#[verifier::external_body]
fn paint_bright_yellow(text: &str) -> (out: String)
    ensures
        painted(text@, seq!['9', '3'], out@),
{
    text.bright_yellow().to_string()
}

/// Calls `Colorize::bright_magenta` of `colored` and renders the result.
/// Where the crate paints, a text without escape characters comes back
/// between the sequence for code 95 and the reset sequence; where it does
/// not, as it is.
#[verifier::external_body]
fn paint_bright_magenta(text: &str) -> (out: String)
    ensures
        painted(text@, seq!['9', '5'], out@),
{
    text.bright_magenta().to_string()
}

/// Calls `Colorize::green` of `colored` and renders the result. Where the
/// crate paints, a text without escape characters comes back between the
/// sequence for code 32 and the reset sequence; where it does not, as it is.
#[verifier::external_body]
fn paint_green(text: &str) -> (out: String)
    ensures
        painted(text@, seq!['3', '2'], out@),
{
    text.green().to_string()
}

/// Lays out an abort from its four pieces, painted or not.
pub fn assemble_abort_report(headline: &str, object_name: &str, object_type: &str, rule: &str) -> (out:
    String)
    ensures
        out@ == abort_layout(headline@, object_name@, object_type@, rule@),
{
    let mut out = String::from_str("\n\n");
    out.append(headline);
    out.append(" ");
    out.append(object_name);
    out.append(" ");
    out.append(object_type);
    out.append("\n");
    out.append(rule);
    out.append("\n\n");
    out
}

/// Lays out the report of a run without changes from its three pieces,
/// painted or not.
pub fn assemble_no_changes_report(headline: &str, object_name: &str, object_type: &str) -> (out:
    String)
    ensures
        out@ == no_changes_layout(headline@, object_name@, object_type@),
{
    let mut out = String::from_str(headline);
    out.append(" ");
    out.append(object_name);
    out.append(" ");
    out.append(object_type);
    out
}

/// The plain text that reports a run without changes on an object.
pub fn no_changes_message(object_name: &str, object_type: MigrationObjectType) -> (out: String)
    ensures
        out@ == no_changes_text(object_name@, object_type),
{
    let kind = object_type.to_string();
    assemble_no_changes_report("No changes detected in", object_name, kind.as_str())
}

/// The report of a run without changes on an object, painted for the
/// terminal as far as `colored` paints.
pub fn no_changes_report(object_name: &str, object_type: MigrationObjectType) -> (out: String)
    ensures
        is_no_changes_report(object_name@, object_type, out@),
{
    let kind = object_type.to_string();
    let headline = paint_green("No changes detected in");
    let name = paint_bright_yellow(object_name);
    let kind = paint_bright_magenta(kind.as_str());
    let out = assemble_no_changes_report(headline.as_str(), name.as_str(), kind.as_str());
    assert(out@ == no_changes_layout(headline@, name@, kind@));
    out
}

impl MigrationAbort {
    /// The line that states the broken rule and its remedy.
    pub fn rule_line(&self) -> (line: String)
        ensures
            line@ == rule_line(self@),
    {
        let mut line = self.kind.rule_text();
        match self.hint {
            Some(hint) => {
                let advice = hint.text();
                line.append(" ");
                line.append(advice.as_str());
            },
            None => {},
        }
        line
    }

    /// The plain text of the abort. It names the object, its kind and the
    /// broken rule, and gives the remedy where there is one.
    pub fn message(&self) -> (text: String)
        ensures
            text@ == abort_text(self@),
    {
        let kind = self.object_type.to_string();
        let rule = self.rule_line();
        let mut text = String::from_str("Illegal change in");
        text.append(" ");
        text.append(self.object_name.as_str());
        text.append(" ");
        text.append(kind.as_str());
        text.append("\n");
        text.append(rule.as_str());
        text
    }

    /// The report of the abort, painted for the terminal as far as `colored`
    /// paints.
    pub fn report(&self) -> (out: String)
        ensures
            is_abort_report(self@, out@),
    {
        let kind = self.object_type.to_string();
        let rule = self.rule_line();
        let headline = paint_bright_red("Illegal change in");
        let name = paint_bright_yellow(self.object_name.as_str());
        let kind = paint_bright_magenta(kind.as_str());
        let rule = match self.kind {
            MigrationErrorKind::IllegalUdtFieldRemoval
            | MigrationErrorKind::IllegalMaterializedViewFieldChange => paint_bold_bright_red(
                rule.as_str(),
            ),
            _ => paint_bright_red(rule.as_str()),
        };
        let out = assemble_abort_report(
            headline.as_str(),
            name.as_str(),
            kind.as_str(),
            rule.as_str(),
        );
        assert(out@ == abort_layout(headline@, name@, kind@, rule@));
        out
    }
}

} // verus!
