//! The texts of the query helpers that are generated for a model: the name of
//! each helper and the beginning of the query it completes.

use vstd::prelude::*;

verus! {

/// The texts of one generated helper.
#[derive(Debug)]
pub struct FindRule {
    /// The name of the helper.
    pub macro_name: String,
    /// The query up to and including `WHERE `.
    pub query_prefix: String,
}

/// The mathematical value of a [`FindRule`].
pub struct FindRuleView {
    pub macro_name: Seq<char>,
    pub query_prefix: Seq<char>,
}

impl View for FindRule {
    type V = FindRuleView;

    open spec fn view(&self) -> FindRuleView {
        FindRuleView { macro_name: self.macro_name@, query_prefix: self.query_prefix@ }
    }
}

/// The query that selects `columns` from `table_name`, up to its condition.
pub open spec fn select_prefix(columns: Seq<char>, table_name: Seq<char>) -> Seq<char> {
    "SELECT "@ + columns + " FROM "@ + table_name + " WHERE "@
}

fn build_select_prefix(columns: &str, table_name: &str) -> (query: String)
    ensures
        query@ == select_prefix(columns@, table_name@),
{
    let mut query = String::from_str("SELECT ");
    query.append(columns);
    query.append(" FROM ");
    query.append(table_name);
    query.append(" WHERE ");
    query
}

/// The helper that completes a query text: `find_<model>_query`, where
/// `model_name` is the name of the model in snake case and `columns` its
/// columns, separated by commas.
pub fn find_model_query_rule(model_name: &str, columns: &str, table_name: &str) -> (rule: FindRule)
    ensures
        rule@.macro_name == "find_"@ + model_name@ + "_query"@,
        rule@.query_prefix == select_prefix(columns@, table_name@),
{
    let mut macro_name = String::from_str("find_");
    macro_name.append(model_name);
    macro_name.append("_query");
    FindRule { macro_name, query_prefix: build_select_prefix(columns, table_name) }
}

/// The helper that finds all matching rows: `find_<model>`.
pub fn find_model_rule(model_name: &str, columns: &str, table_name: &str) -> (rule: FindRule)
    ensures
        rule@.macro_name == "find_"@ + model_name@,
        rule@.query_prefix == select_prefix(columns@, table_name@),
{
    let mut macro_name = String::from_str("find_");
    macro_name.append(model_name);
    FindRule { macro_name, query_prefix: build_select_prefix(columns, table_name) }
}

/// The helper that finds the first matching row: `find_first_<model>`.
pub fn find_first_model_rule(model_name: &str, columns: &str, table_name: &str) -> (rule: FindRule)
    ensures
        rule@.macro_name == "find_first_"@ + model_name@,
        rule@.query_prefix == select_prefix(columns@, table_name@),
{
    let mut macro_name = String::from_str("find_first_");
    macro_name.append(model_name);
    FindRule { macro_name, query_prefix: build_select_prefix(columns, table_name) }
}

} // verus!
