//! The decisions of the foreign-function entry points: which arguments are
//! accepted, which request reaches the database, and which reply goes back.

use vstd::prelude::*;
use vstd::string::*;
use crate::cbor::{error_payload, err_bytes, ok_cbor, decode_vars, vars_outcome, cbor_json_decode};
use vstd::utf8::{valid_utf8, decode_utf8};
use crate::text::{cstr, cstr_outcome, opt_bytes, decimal, decimal_string, utf8_error_text};

verus! {

/// Where and under which namespace and database an embedded database is opened.
/// `path` is the storage path of a persistent store, `None` for an in-memory one.
#[derive(Debug)]
pub struct OpenTarget {
    pub path: Option<String>,
    pub ns: String,
    pub db: String,
}

/// Checks the arguments of opening an in-memory database. `None` stands for a
/// null pointer. The database is opened only where both names are readable;
/// otherwise the entry point answers with a null handle.
pub fn se_open_mem(ns: Option<&[u8]>, db: Option<&[u8]>) -> (target: Option<OpenTarget>)
    ensures
        target is Some <==> (cstr_outcome(opt_bytes(ns)) is Ok
            && cstr_outcome(opt_bytes(db)) is Ok),
        target matches Some(t) ==> {
            &&& t.path is None
            &&& cstr_outcome(opt_bytes(ns)) == Ok::<Seq<char>, Seq<char>>(t.ns@)
            &&& cstr_outcome(opt_bytes(db)) == Ok::<Seq<char>, Seq<char>>(t.db@)
        },
        ns matches Some(n) ==> (db matches Some(d) ==> (valid_utf8(n@) && valid_utf8(d@) ==> (
        target matches Some(t) && t.path is None && t.ns@ == decode_utf8(n@) && t.db@
            == decode_utf8(d@)))),
        target is Some ==> (ns matches Some(n) && valid_utf8(n@)) && (db matches Some(d)
            && valid_utf8(d@)),
{
    let ns = match cstr(ns) {
        Ok(v) => v,
        Err(_) => return None,
    };
    let db = match cstr(db) {
        Ok(v) => v,
        Err(_) => return None,
    };
    Some(OpenTarget { path: None, ns, db })
}

/// Checks the arguments of opening a persistent database at `path`. `None`
/// stands for a null pointer. The database is opened only where the path and
/// both names are readable; otherwise the entry point answers with a null handle.
pub fn se_open_surrealkv(path: Option<&[u8]>, ns: Option<&[u8]>, db: Option<&[u8]>) -> (target:
    Option<OpenTarget>)
    ensures
        target is Some <==> (cstr_outcome(opt_bytes(path)) is Ok
            && cstr_outcome(opt_bytes(ns)) is Ok && cstr_outcome(opt_bytes(db)) is Ok),
        target matches Some(t) ==> {
            &&& t.path matches Some(p) && cstr_outcome(opt_bytes(path)) == Ok::<
                Seq<char>,
                Seq<char>,
            >(p@)
            &&& cstr_outcome(opt_bytes(ns)) == Ok::<Seq<char>, Seq<char>>(t.ns@)
            &&& cstr_outcome(opt_bytes(db)) == Ok::<Seq<char>, Seq<char>>(t.db@)
        },
        path matches Some(p) ==> (ns matches Some(n) ==> (db matches Some(d) ==> (valid_utf8(p@)
            && valid_utf8(n@) && valid_utf8(d@) ==> (target matches Some(t) && t.path matches Some(
            tp,
        ) && tp@ == decode_utf8(p@) && t.ns@ == decode_utf8(n@) && t.db@ == decode_utf8(d@))))),
        target is Some ==> (path matches Some(p) && valid_utf8(p@)) && (ns matches Some(n)
            && valid_utf8(n@)) && (db matches Some(d) && valid_utf8(d@)),
{
    let path = match cstr(path) {
        Ok(v) => v,
        Err(_) => return None,
    };
    let ns = match cstr(ns) {
        Ok(v) => v,
        Err(_) => return None,
    };
    let db = match cstr(db) {
        Ok(v) => v,
        Err(_) => return None,
    };
    Some(OpenTarget { path: Some(path), ns, db })
}

/// A query that has passed the checks and is to be run: the SurrealQL text,
/// the variables to bind, and the index of the statement whose result is wanted.
#[derive(Debug)]
pub struct QueryRequest {
    pub surql: String,
    pub vars: Option<serde_json::Value>,
    pub index: usize,
}

/// What a query entry point does next: answer at once with a reply, or run a query.
#[derive(Debug)]
pub enum QueryStep {
    Respond(Vec<u8>),
    Run(QueryRequest),
}

/// The first checks of a query: a null handle, then the SurrealQL argument.
/// `Err` holds the error reply, `Ok` the text to run.
pub open spec fn query_text_plan(handle_is_null: bool, surql: Option<Seq<u8>>) -> Result<
    Seq<char>,
    Seq<u8>,
> {
    if handle_is_null {
        Err(error_payload("null handle"@))
    } else {
        match cstr_outcome(surql) {
            Err(m) => Err(error_payload(m)),
            Ok(q) => Ok(q),
        }
    }
}

/// What a query whose text `q` passed the first checks does with its variables:
/// `Err` holds the error reply; `Ok` holds the text, the value to bind, and the
/// statement index.
pub open spec fn query_vars_plan(q: Seq<char>, vars: Option<Seq<u8>>, index: usize) -> Result<
    (Seq<char>, Option<serde_json::Value>, usize),
    Seq<u8>,
> {
    match vars_outcome(vars) {
        Err(m) => Err(error_payload(m)),
        Ok(v) => Ok((q, v, index)),
    }
}

/// The checks of a query, in their order: a null handle, then the SurrealQL
/// argument, then the variables. `Err` holds the error reply; `Ok` holds the
/// text to run, the value decoded from the variables (if any), and the statement index.
pub open spec fn query_plan(
    handle_is_null: bool,
    surql: Option<Seq<u8>>,
    vars: Option<Seq<u8>>,
    index: usize,
) -> Result<(Seq<char>, Option<serde_json::Value>, usize), Seq<u8>> {
    match query_text_plan(handle_is_null, surql) {
        Err(reply) => Err(reply),
        Ok(q) => query_vars_plan(q, vars, index),
    }
}

/// A step seen as a plan: the reply it gives, or the request it runs.
pub open spec fn step_view(step: QueryStep) -> Result<
    (Seq<char>, Option<serde_json::Value>, usize),
    Seq<u8>,
> {
    match step {
        QueryStep::Respond(reply) => Err(reply@),
        QueryStep::Run(r) => Ok((r.surql@, r.vars, r.index)),
    }
}

/// The first checks of a query: answers with the error reply for a null handle
/// or an unreadable SurrealQL argument (`None` stands for a null pointer), and
/// otherwise gives the text to run. The variables are read only after this.
pub fn check_query_text(handle_is_null: bool, surql: Option<&[u8]>) -> (res: Result<
    String,
    Vec<u8>,
>)
    ensures
        match res {
            Ok(q) => query_text_plan(handle_is_null, opt_bytes(surql)) == Ok::<
                Seq<char>,
                Seq<u8>,
            >(q@),
            Err(reply) => query_text_plan(handle_is_null, opt_bytes(surql)) == Err::<
                Seq<char>,
                Seq<u8>,
            >(reply@),
        },
        !handle_is_null ==> (surql matches Some(s) ==> (valid_utf8(s@) ==> (res matches Ok(q)
            && q@ == decode_utf8(s@)))),
        res is Err ==> handle_is_null || surql is None || !valid_utf8(surql->Some_0@),
        handle_is_null ==> (res matches Err(r) && r@ == error_payload("null handle"@)),
        !handle_is_null && surql is None ==> (res matches Err(r) && r@ == error_payload(
            "null string"@,
        )),
        !handle_is_null ==> (surql matches Some(s) ==> (!valid_utf8(s@) ==> (res matches Err(r)
            && r@ == error_payload("utf8 error: "@ + utf8_error_text(s@))))),
{
    if handle_is_null {
        return Err(err_bytes("null handle"));
    }
    match cstr(surql) {
        Ok(v) => Ok(v),
        Err(e) => Err(err_bytes(e.as_str())),
    }
}

/// The last check of a query whose text passed: decodes the variables
/// (`None` stands for a null pointer) and either answers with the error reply
/// or runs the text with the decoded value bound, taking statement `index`.
pub fn bind_query_vars(surql: String, vars: Option<&[u8]>, index: usize) -> (step: QueryStep)
    ensures
        step_view(step) == query_vars_plan(surql@, opt_bytes(vars), index),
        step matches QueryStep::Run(r) ==> r.surql@ == surql@ && r.index == index,
        vars is None ==> (step matches QueryStep::Run(r) && r.vars is None),
        vars matches Some(b) ==> (b@.len() == 0 ==> (step matches QueryStep::Run(r)
            && r.vars is None)),
        vars matches Some(b) ==> (b@.len() > 0 && cbor_json_decode(b@) is Ok ==> (
        step matches QueryStep::Run(r) && r.vars == Some(cbor_json_decode(b@)->Ok_0))),
        step is Respond ==> (vars matches Some(b) && b@.len() > 0 && cbor_json_decode(b@) is Err),
        vars matches Some(b) ==> (b@.len() > 0 && cbor_json_decode(b@) is Err ==> (
        step matches QueryStep::Respond(r) && r@ == error_payload(
            "vars CBOR decode error: "@ + cbor_json_decode(b@)->Err_0,
        ))),
{
    match decode_vars(vars) {
        Ok(v) => QueryStep::Run(QueryRequest { surql, vars: v, index }),
        Err(e) => QueryStep::Respond(err_bytes(e.as_str())),
    }
}

/// Checks the arguments of running SurrealQL and taking the result of the
/// statement at `index`. `surql` and `vars` are `None` for null pointers.
pub fn se_query_take(
    handle_is_null: bool,
    surql: Option<&[u8]>,
    vars: Option<&[u8]>,
    index: usize,
) -> (step: QueryStep)
    ensures
        step_view(step) == query_plan(handle_is_null, opt_bytes(surql), opt_bytes(vars), index),
        step matches QueryStep::Run(r) ==> r.index == index,
        !handle_is_null ==> (surql matches Some(s) ==> (valid_utf8(s@) ==> (vars is None ==> (
        step matches QueryStep::Run(r) && r.surql@ == decode_utf8(s@) && r.vars is None)))),
        !handle_is_null ==> (surql matches Some(s) ==> (valid_utf8(s@) ==> (vars matches Some(b)
            ==> (b@.len() == 0 ==> (step matches QueryStep::Run(r) && r.surql@ == decode_utf8(s@)
            && r.vars is None))))),
        !handle_is_null ==> (surql matches Some(s) ==> (valid_utf8(s@) ==> (vars matches Some(b)
            ==> (b@.len() > 0 && cbor_json_decode(b@) is Ok ==> (step matches QueryStep::Run(r)
            && r.surql@ == decode_utf8(s@) && r.vars == Some(cbor_json_decode(b@)->Ok_0)))))),
        step is Respond ==> handle_is_null || surql is None || !valid_utf8(surql->Some_0@) || (
        vars matches Some(b) && b@.len() > 0 && cbor_json_decode(b@) is Err),
        handle_is_null ==> (step matches QueryStep::Respond(r) && r@ == error_payload(
            "null handle"@,
        )),
{
    match check_query_text(handle_is_null, surql) {
        Err(reply) => QueryStep::Respond(reply),
        Ok(q) => bind_query_vars(q, vars, index),
    }
}

/// Checks the arguments of running SurrealQL and taking the result of its first
/// statement. `surql` and `vars` are `None` for null pointers.
pub fn se_query(handle_is_null: bool, surql: Option<&[u8]>, vars: Option<&[u8]>) -> (step:
    QueryStep)
    ensures
        step_view(step) == query_plan(handle_is_null, opt_bytes(surql), opt_bytes(vars), 0),
        step matches QueryStep::Run(r) ==> r.index == 0,
        !handle_is_null ==> (surql matches Some(s) ==> (valid_utf8(s@) ==> (vars is None ==> (
        step matches QueryStep::Run(r) && r.surql@ == decode_utf8(s@) && r.vars is None)))),
        !handle_is_null ==> (surql matches Some(s) ==> (valid_utf8(s@) ==> (vars matches Some(b)
            ==> (b@.len() == 0 ==> (step matches QueryStep::Run(r) && r.surql@ == decode_utf8(s@)
            && r.vars is None))))),
        !handle_is_null ==> (surql matches Some(s) ==> (valid_utf8(s@) ==> (vars matches Some(b)
            ==> (b@.len() > 0 && cbor_json_decode(b@) is Ok ==> (step matches QueryStep::Run(r)
            && r.surql@ == decode_utf8(s@) && r.vars == Some(cbor_json_decode(b@)->Ok_0)))))),
        step is Respond ==> handle_is_null || surql is None || !valid_utf8(surql->Some_0@) || (
        vars matches Some(b) && b@.len() > 0 && cbor_json_decode(b@) is Err),
        handle_is_null ==> (step matches QueryStep::Respond(r) && r@ == error_payload(
            "null handle"@,
        )),
{
    match check_query_text(handle_is_null, surql) {
        Err(reply) => QueryStep::Respond(reply),
        Ok(q) => bind_query_vars(q, vars, 0),
    }
}

/// Running a query is taking the result of its statement 0: on the same
/// arguments, what `se_query` does (`first`) and what `se_query_take` does at
/// index 0 (`taken`) are the same reply, or the same request with the same
/// text and the same bound value.
pub proof fn lemma_query_is_take_at_zero(
    handle_is_null: bool,
    surql: Option<Seq<u8>>,
    vars: Option<Seq<u8>>,
    first: QueryStep,
    taken: QueryStep,
)
    requires
        step_view(first) == query_plan(handle_is_null, surql, vars, 0),
        step_view(taken) == query_plan(handle_is_null, surql, vars, 0),
    ensures
        first matches QueryStep::Respond(a) ==> taken matches QueryStep::Respond(b) && a@ == b@,
        first matches QueryStep::Run(a) ==> taken matches QueryStep::Run(b) && a.surql@ == b.surql@
            && a.vars == b.vars && a.index == b.index && b.index == 0,
{
}

/// How running a query against the database ended.
#[derive(Debug)]
pub enum QueryOutcome {
    /// The lock on the connection was poisoned.
    LockPoisoned,
    /// The query failed, with the database's message.
    QueryFailed(String),
    /// Taking the result of the requested statement failed, with the database's message.
    TakeFailed(String),
    /// The statement's result was taken and serialised to CBOR (or its serialisation
    /// failed with the given message).
    Taken(Result<Vec<u8>, String>),
}

/// The reply to a query whose statement `index` was requested and that ended in `outcome`.
pub open spec fn query_reply(index: usize, outcome: QueryOutcome) -> Seq<u8> {
    match outcome {
        QueryOutcome::LockPoisoned => error_payload("mutex poisoned"@),
        QueryOutcome::QueryFailed(m) => error_payload(m@),
        QueryOutcome::TakeFailed(m) => error_payload(
            "resp.take("@ + decimal(index as nat) + ") error: "@ + m@,
        ),
        QueryOutcome::Taken(encoded) => match encoded {
            Ok(b) => b@,
            Err(m) => error_payload("CBOR encode error: "@ + m@),
        },
    }
}

/// Builds the reply to a query that ran: the CBOR bytes of the taken result,
/// or the error envelope that names what went wrong.
pub fn query_take_reply(index: usize, outcome: QueryOutcome) -> (reply: Vec<u8>)
    ensures
        reply@ == query_reply(index, outcome),
        outcome matches QueryOutcome::Taken(Ok(b)) ==> reply@ == b@,
        outcome matches QueryOutcome::Taken(Err(m)) ==> reply@ == error_payload(
            "CBOR encode error: "@ + m@,
        ),
        outcome is LockPoisoned ==> reply@ == error_payload("mutex poisoned"@),
        outcome matches QueryOutcome::QueryFailed(m) ==> reply@ == error_payload(m@),
        outcome matches QueryOutcome::TakeFailed(m) ==> reply@ == error_payload(
            "resp.take("@ + decimal(index as nat) + ") error: "@ + m@,
        ),
        !(outcome matches QueryOutcome::Taken(Ok(_))) ==> exists|m: Seq<char>|
            reply@ == #[trigger] error_payload(m),
{
    proof {
        lemma_query_replies_are_results_or_errors(index, outcome);
    }
    match outcome {
        QueryOutcome::LockPoisoned => err_bytes("mutex poisoned"),
        QueryOutcome::QueryFailed(m) => err_bytes(m.as_str()),
        QueryOutcome::TakeFailed(m) => {
            let mut msg = String::from_str("resp.take(");
            let digits = decimal_string(index);
            msg.append(digits.as_str());
            msg.append(") error: ");
            msg.append(m.as_str());
            err_bytes(msg.as_str())
        },
        QueryOutcome::Taken(encoded) => ok_cbor(encoded),
    }
}

/// A query that is not run is answered with an error envelope `{ "error": m }`.
pub proof fn lemma_rejected_query_replies_are_errors(
    handle_is_null: bool,
    surql: Option<Seq<u8>>,
    vars: Option<Seq<u8>>,
    index: usize,
)
    ensures
        query_plan(handle_is_null, surql, vars, index) matches Err(reply) ==> exists|m: Seq<char>|
            reply == #[trigger] error_payload(m),
{
    let plan = query_plan(handle_is_null, surql, vars, index);
    if handle_is_null {
        assert(plan->Err_0 == error_payload("null handle"@));
    } else {
        match cstr_outcome(surql) {
            Err(m) => {
                assert(plan->Err_0 == error_payload(m));
            },
            Ok(q) => match vars_outcome(vars) {
                Err(m) => {
                    assert(plan->Err_0 == error_payload(m));
                },
                Ok(v) => {},
            },
        }
    }
}

/// The reply to a query that ran is either the CBOR bytes of the taken result
/// or an error envelope `{ "error": m }`.
pub proof fn lemma_query_replies_are_results_or_errors(index: usize, outcome: QueryOutcome)
    ensures
        (outcome matches QueryOutcome::Taken(Ok(b)) && query_reply(index, outcome) == b@)
            || exists|m: Seq<char>| query_reply(index, outcome) == #[trigger] error_payload(m),
{
    match outcome {
        QueryOutcome::LockPoisoned => {
            assert(query_reply(index, outcome) == error_payload("mutex poisoned"@));
        },
        QueryOutcome::QueryFailed(m) => {
            assert(query_reply(index, outcome) == error_payload(m@));
        },
        QueryOutcome::TakeFailed(m) => {
            let msg = "resp.take("@ + decimal(index as nat) + ") error: "@ + m@;
            assert(query_reply(index, outcome) == error_payload(msg));
        },
        QueryOutcome::Taken(encoded) => match encoded {
            Ok(b) => {},
            Err(m) => {
                assert(query_reply(index, outcome) == error_payload("CBOR encode error: "@ + m@));
            },
        },
    }
}

/// The text checks of a query refuse only a null handle, a null SurrealQL
/// pointer or SurrealQL that is not UTF-8, whatever the text holds; a readable
/// text passes unchanged, as its decoded characters.
pub proof fn law_query_text_refuses_only_unreadable(handle_is_null: bool, surql: Option<Seq<u8>>)
    ensures
        query_text_plan(handle_is_null, surql) is Err <==> (handle_is_null || surql is None
            || !valid_utf8(surql->Some_0)),
        !handle_is_null ==> (surql matches Some(s) ==> (valid_utf8(s) ==> query_text_plan(
            handle_is_null,
            surql,
        ) == Ok::<Seq<char>, Seq<u8>>(decode_utf8(s)))),
{
}

/// The value bound to a query is the value decoded from its variable bytes,
/// whatever statement index is taken: nothing is bound only for a null
/// pointer or an empty buffer, and the text and index are passed on as given.
pub proof fn law_bound_value_is_decoded_value(
    q: Seq<char>,
    vars: Option<Seq<u8>>,
    index: usize,
    other_index: usize,
)
    ensures
        (vars is None || vars->Some_0.len() == 0) ==> query_vars_plan(q, vars, index) == Ok::<
            (Seq<char>, Option<serde_json::Value>, usize),
            Seq<u8>,
        >((q, None, index)),
        vars matches Some(b) ==> (b.len() > 0 && cbor_json_decode(b) is Ok ==> query_vars_plan(
            q,
            vars,
            index,
        ) == Ok::<(Seq<char>, Option<serde_json::Value>, usize), Seq<u8>>(
            (q, Some(cbor_json_decode(b)->Ok_0), index),
        )),
        query_vars_plan(q, vars, index) is Ok <==> query_vars_plan(q, vars, other_index) is Ok,
        query_vars_plan(q, vars, index) is Ok ==> query_vars_plan(q, vars, index)->Ok_0.1
            == query_vars_plan(q, vars, other_index)->Ok_0.1,
{
}

/// A query with a live handle, readable SurrealQL and variables that are
/// absent or decode is always run, with exactly that text, the decoded value
/// and the requested index.
pub proof fn law_readable_query_runs(
    handle_is_null: bool,
    surql: Option<Seq<u8>>,
    vars: Option<Seq<u8>>,
    index: usize,
)
    ensures
        !handle_is_null ==> (surql matches Some(s) ==> (valid_utf8(s) ==> (vars is None
            ==> query_plan(handle_is_null, surql, vars, index) == Ok::<
            (Seq<char>, Option<serde_json::Value>, usize),
            Seq<u8>,
        >((decode_utf8(s), None, index))))),
        !handle_is_null ==> (surql matches Some(s) ==> (valid_utf8(s) ==> (vars matches Some(b)
            ==> (b.len() > 0 && cbor_json_decode(b) is Ok ==> query_plan(
            handle_is_null,
            surql,
            vars,
            index,
        ) == Ok::<(Seq<char>, Option<serde_json::Value>, usize), Seq<u8>>(
            (decode_utf8(s), Some(cbor_json_decode(b)->Ok_0), index),
        ))))),
{
}

/// The serialised result of a query that ran is the reply, byte for byte,
/// whatever the bytes and the statement index; only the failed outcomes are
/// answered with an error envelope.
pub proof fn law_taken_result_is_the_reply(index: usize, outcome: QueryOutcome)
    ensures
        outcome matches QueryOutcome::Taken(Ok(b)) ==> query_reply(index, outcome) == b@,
        !(outcome matches QueryOutcome::Taken(Ok(_))) ==> exists|m: Seq<char>|
            query_reply(index, outcome) == #[trigger] error_payload(m),
{
    lemma_query_replies_are_results_or_errors(index, outcome);
}

/// What the binding reports of itself.
#[derive(Debug)]
pub struct VersionInfo {
    pub surrealdb_version: String,
    pub enabled_backends: Vec<String>,
    pub build_target: String,
}

/// The storage backends that this binding can open: `"mem"` and `"surrealkv"`.
pub fn enabled_backends() -> (backends: Vec<String>)
    ensures
        backends@.len() == 2,
        backends@[0]@ == "mem"@,
        backends@[1]@ == "surrealkv"@,
{
    let mut backends: Vec<String> = Vec::new();
    backends.push(String::from_str("mem"));
    backends.push(String::from_str("surrealkv"));
    backends
}

/// The version report for the given database version and build target.
pub fn se_version(surrealdb_version: &str, build_target: &str) -> (info: VersionInfo)
    ensures
        info.surrealdb_version@ == surrealdb_version@,
        info.build_target@ == build_target@,
        info.enabled_backends@.len() == 2,
        info.enabled_backends@[0]@ == "mem"@,
        info.enabled_backends@[1]@ == "surrealkv"@,
{
    VersionInfo {
        surrealdb_version: String::from_str(surrealdb_version),
        enabled_backends: enabled_backends(),
        build_target: String::from_str(build_target),
    }
}

} // verus!
