//! The period the daily scrum report covers, and its filters.
use vstd::prelude::*;

use crate::commands::CommandError;
use crate::text::{decimal, join2, to_decimal};

verus! {

#[verifier::external_type_specification]
#[verifier::external_body]
pub struct ExRenderError(handlebars::RenderError);

/// What a Handlebars template renders to when `bound` is its only variable,
/// or `None` where it does not render.
pub uninterp spec fn rendered(template: Seq<char>, bound: Seq<char>) -> Option<Seq<char>>;

/// Relies on `handlebars::Handlebars::render_template` with a fresh registry
/// and the data `{ "bound": bound }`.
#[verifier::external_body]
fn render_with_bound(template: &str, bound: &str) -> (r: Result<String, handlebars::RenderError>)
    ensures
        match r {
            Ok(s) => rendered(template@, bound@) == Some(s@),
            Err(_) => rendered(template@, bound@) is None,
        },
{
    let mut vars = std::collections::HashMap::new();
    vars.insert("bound", bound);
    handlebars::Handlebars::new().render_template(template, &vars)
}

/// A scrum filter with the start of the period filled in.
pub fn scrum_filter(template: &str, bound: &str) -> (r: Result<String, CommandError>)
    ensures
        match rendered(template@, bound@) {
            Some(s) => r is Ok && r->Ok_0@ == s,
            None => r == Err::<String, CommandError>(CommandError::BadTemplate),
        },
{
    match render_with_bound(template, bound) {
        Ok(s) => Ok(s),
        Err(_) => Err(CommandError::BadTemplate),
    }
}

/// Where the period since the last scrum starts: the given number of days
/// back, or else the last working day before today, with `weekday` counted
/// from Monday as 0.
pub open spec fn scrum_bound_spec(days: Option<u64>, weekday: u32) -> Seq<char> {
    match days {
        Some(d) => "today-"@ + decimal(d as nat) + "d"@,
        None => if weekday == 0 {
            "today-3d"@
        } else if weekday == 6 {
            "today-2d"@
        } else {
            "yesterday"@
        },
    }
}

pub fn scrum_bound(days: Option<u64>, weekday: u32) -> (r: String)
    ensures
        r@ == scrum_bound_spec(days, weekday),
{
    match days {
        Some(d) => {
            let n = to_decimal(d);
            let mut r = join2("today-", n.as_str());
            r.append("d");
            r
        },
        None => if weekday == 0 {
            String::from_str("today-3d")
        } else if weekday == 6 {
            String::from_str("today-2d")
        } else {
            String::from_str("yesterday")
        },
    }
}

} // verus!
