//! The `cron` crate's parser of cron expressions, as the scheduler uses it.
use vstd::prelude::*;
use std::str::FromStr;

verus! {

#[verifier::external_type_specification]
#[verifier::external_body]
pub struct ExCronError(cron::error::Error);

/// Whether the `cron` crate accepts `line` as a cron expression.
pub uninterp spec fn cron_expression_parses(line: Seq<char>) -> bool;

/// Calls `cron::Schedule::from_str`, the `cron` crate's parser of cron
/// expressions.  Claimed: it succeeds exactly on the lines named by
/// `cron_expression_parses`, a function of the line alone.  The parsed schedule
/// is dropped (the scheduler only validates); nothing is claimed of the error.
#[verifier::external_body]
pub(crate) fn parse_cron_expression(line: &str) -> (r: Result<(), cron::error::Error>)
    ensures
        r is Ok <==> cron_expression_parses(line@),
{
    match cron::Schedule::from_str(line) {
        Ok(_) => Ok(()),
        Err(err) => Err(err),
    }
}

} // verus!
