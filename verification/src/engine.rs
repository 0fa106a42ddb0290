use vstd::prelude::*;

verus! {

/// One textual attribute (a path or home directory) as the engine reports
/// it: either readable text, or a value the engine could not render as text.
pub enum EngineField {
    Readable(String),
    Unreadable,
}

impl View for EngineField {
    type V = Option<Seq<char>>;

    open spec fn view(&self) -> Option<Seq<char>> {
        match self {
            EngineField::Readable(s) => Some(s@),
            EngineField::Unreadable => None,
        }
    }
}

/// The field's text where it is readable, the given sentinel otherwise.
pub open spec fn field_or(f: Option<Seq<char>>, sentinel: Seq<char>) -> Seq<char> {
    match f {
        Some(s) => s,
        None => sentinel,
    }
}

/// What a query of the installed engines yielded: the query itself failed,
/// the listing holds no OpenPGP backend, or the OpenPGP backend's home
/// directory and binary path reads.
pub enum EngineQuery {
    Failed(String),
    NoOpenPgp,
    OpenPgp { home_dir: EngineField, path: EngineField },
}

/// The report of a pure engine-info query: the OpenPGP backend's home
/// directory and binary path, plus an error slot for the case in which the
/// engines could not be queried at all.
pub struct EngineReport {
    pub directory: String,
    pub bin: String,
    pub err: String,
}

/// Report on the installed engines, preserving the three-way distinction of
/// the query's outcome: a failed query gives empty fields and the diagnostic,
/// an absent OpenPGP backend gives the `"not found"` sentinel, and a present
/// backend gives each readable field verbatim with `"invalid"` for a field
/// that could not be rendered as text.
pub fn engine_info(query: EngineQuery) -> (r: EngineReport)
    ensures
        query matches EngineQuery::Failed(d) ==> r.directory@ == Seq::<char>::empty()
            && r.bin@ == Seq::<char>::empty() && r.err@ == d@,
        query matches EngineQuery::NoOpenPgp ==> r.directory@ == "not found"@
            && r.bin@ == "not found"@ && r.err@ == Seq::<char>::empty(),
        query matches EngineQuery::OpenPgp { home_dir, path } ==> r.directory@ == field_or(
            home_dir@,
            "invalid"@,
        ) && r.bin@ == field_or(path@, "invalid"@) && r.err@ == Seq::<char>::empty(),
{
    match query {
        EngineQuery::Failed(d) => EngineReport {
            directory: String::new(),
            bin: String::new(),
            err: d,
        },
        EngineQuery::NoOpenPgp => EngineReport {
            directory: "not found".to_string(),
            bin: "not found".to_string(),
            err: String::new(),
        },
        EngineQuery::OpenPgp { home_dir, path } => EngineReport {
            directory: field_or_sentinel(home_dir, "invalid"),
            bin: field_or_sentinel(path, "invalid"),
            err: String::new(),
        },
    }
}

/// The report of a configured context's engine-info query; there is no error
/// slot because the context itself vouches for the engine.
pub struct ContextEngineReport {
    pub directory: String,
    pub bin: String,
}

/// Report a configured context's engine home directory and binary path,
/// with the `"not found"` sentinel for a field the engine could not render
/// as text.
pub fn context_engine_info(home_dir: EngineField, path: EngineField) -> (r: ContextEngineReport)
    ensures
        r.directory@ == field_or(home_dir@, "not found"@),
        r.bin@ == field_or(path@, "not found"@),
{
    ContextEngineReport {
        directory: field_or_sentinel(home_dir, "not found"),
        bin: field_or_sentinel(path, "not found"),
    }
}

fn field_or_sentinel(f: EngineField, sentinel: &str) -> (r: String)
    ensures
        r@ == field_or(f@, sentinel@),
{
    match f {
        EngineField::Readable(s) => s,
        EngineField::Unreadable => sentinel.to_string(),
    }
}

/// The engine's version string, as reported; a fixed placeholder where the
/// engine reported none.
pub fn check_version(reported: Option<String>) -> (r: String)
    ensures
        reported matches Some(v) ==> r@ == v@,
        reported is None ==> r@ == "unknown"@,
{
    match reported {
        Some(v) => v,
        None => "unknown".to_string(),
    }
}

/// Whether the engine reports a usable OpenPGP backend at the expected
/// protocol level: true exactly when the engine's version check passed,
/// false on any error, with no distinction among error causes.
pub fn check_openpgp_supported(check: Result<String, String>) -> (r: bool)
    ensures
        r == (check is Ok),
{
    match check {
        Ok(_) => true,
        Err(_) => false,
    }
}

} // verus!
