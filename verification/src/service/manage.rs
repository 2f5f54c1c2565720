//! The service label, the arguments the service runs with, and the
//! options of the service actions.
use vstd::prelude::*;

use super::{SERVICE_GENERATION, SERVICE_QUALIFIED_NAME};
use crate::error::CoreError;
use crate::net::{socket_text, socket_to_text, SocketAddress};
use super::health::{scm_status_text, scm_text, ScmStatus};
use crate::text::{append_str, string_from_chars};

verus! {

/// A service label: optional qualifier and organization, and the
/// application name.
#[derive(Debug, Clone)]
pub struct Label {
    /// Qualifier (such as `dev`).
    pub qualifier: Option<String>,
    /// Organization.
    pub organization: Option<String>,
    /// Application name.
    pub application: String,
}

/// The text of an optional string.
pub open spec fn opt_text(o: Option<String>) -> Option<Seq<char>> {
    match o {
        Some(s) => Some(s@),
        None => None,
    }
}

impl View for Label {
    type V = (Option<Seq<char>>, Option<Seq<char>>, Seq<char>);

    open spec fn view(&self) -> Self::V {
        (opt_text(self.qualifier), opt_text(self.organization), self.application@)
    }
}

/// The pieces of `s` between `.` characters (empty pieces included), as
/// `str::split('.')` gives them.
pub open spec fn dot_split(s: Seq<char>) -> Seq<Seq<char>>
    decreases s.len(),
{
    if s.len() == 0 {
        seq![Seq::empty()]
    } else {
        let t = dot_split(s.drop_last());
        if s.last() == '.' {
            t.push(Seq::empty())
        } else {
            t.update(t.len() - 1, t.last().push(s.last()))
        }
    }
}

/// Pieces joined with `.` between them.
pub open spec fn dot_join(t: Seq<Seq<char>>) -> Seq<char>
    decreases t.len(),
{
    if t.len() == 0 {
        Seq::empty()
    } else if t.len() == 1 {
        t[0]
    } else {
        dot_join(t.drop_last()) + seq!['.'] + t.last()
    }
}

/// The label a name parses to: one piece is the application; two are
/// organization and application; more are qualifier, organization and
/// the rest joined by `.`.
pub open spec fn label_parse(s: Seq<char>) -> (Option<Seq<char>>, Option<Seq<char>>, Seq<char>) {
    let t = dot_split(s);
    if t.len() == 1 {
        (None, None, t[0])
    } else if t.len() == 2 {
        (None, Some(t[0]), t[1])
    } else {
        (Some(t[0]), Some(t[1]), dot_join(t.subrange(2, t.len() as int)))
    }
}

/// `{qualifier}.{organization}.{application}`, absent parts left out.
pub open spec fn qualified_of(l: (Option<Seq<char>>, Option<Seq<char>>, Seq<char>)) -> Seq<char> {
    (match l.0 {
        Some(q) => q + seq!['.'],
        None => Seq::empty(),
    }) + (match l.1 {
        Some(o) => o + seq!['.'],
        None => Seq::empty(),
    }) + l.2
}

/// `{organization}-{application}`, an absent organization left out.
pub open spec fn script_of(l: (Option<Seq<char>>, Option<Seq<char>>, Seq<char>)) -> Seq<char> {
    (match l.1 {
        Some(o) => o + seq!['-'],
        None => Seq::empty(),
    }) + l.2
}

/// `ServiceLabel::from_str` of service-manager: splits the name on `.`
/// into one piece (application), two (organization, application) or more
/// (qualifier, organization, the rest joined by `.`). Its source never
/// returns an error.
#[verifier::external_body]
fn parse_label(name: &str) -> (r: Result<Label, String>)
    ensures
        r is Ok,
        r->Ok_0@ == label_parse(name@),
{
    match name.parse::<service_manager::ServiceLabel>() {
        Ok(l) => Ok(
            Label { qualifier: l.qualifier, organization: l.organization, application: l.application },
        ),
        Err(e) => Err(e.to_string()),
    }
}

/// `ServiceLabel::to_qualified_name` of service-manager: qualifier and
/// organization, each followed by `.` when present, then the application.
#[verifier::external_body]
fn qualified_name(l: &Label) -> (r: String)
    ensures
        r@ == qualified_of(l@),
{
    service_manager::ServiceLabel {
        qualifier: l.qualifier.clone(),
        organization: l.organization.clone(),
        application: l.application.clone(),
    }.to_qualified_name()
}

/// `ServiceLabel::to_script_name` of service-manager: the organization
/// followed by `-` when present, then the application.
#[verifier::external_body]
fn script_name(l: &Label) -> (r: String)
    ensures
        r@ == script_of(l@),
{
    service_manager::ServiceLabel {
        qualifier: l.qualifier.clone(),
        organization: l.organization.clone(),
        application: l.application.clone(),
    }.to_script_name()
}

/// The label of the service `dev.astral.core`.
pub fn service_label() -> (r: Result<Label, CoreError>)
    ensures
        r matches Ok(l) && l@ == label_parse(SERVICE_QUALIFIED_NAME@),
{
    match parse_label(SERVICE_QUALIFIED_NAME) {
        Ok(l) => Ok(l),
        Err(e) => {
            let mut m: Vec<char> = Vec::new();
            append_str(&mut m, "无效服务标签 ");
            append_str(&mut m, SERVICE_QUALIFIED_NAME);
            append_str(&mut m, ": ");
            append_str(&mut m, e.as_str());
            Err(CoreError::Other(string_from_chars(m.as_slice())))
        },
    }
}

/// The readable service identity: `qualified=… script=…`.
pub fn status_label() -> (r: Result<String, CoreError>)
    ensures
        r matches Ok(s) && s@ == "qualified="@ + qualified_of(label_parse(SERVICE_QUALIFIED_NAME@))
            + " script="@ + script_of(label_parse(SERVICE_QUALIFIED_NAME@)),
{
    let label = match service_label() {
        Ok(l) => l,
        Err(e) => {
            return Err(e);
        },
    };
    let mut m: Vec<char> = Vec::new();
    append_str(&mut m, "qualified=");
    append_str(&mut m, qualified_name(&label).as_str());
    append_str(&mut m, " script=");
    append_str(&mut m, script_name(&label).as_str());
    Ok(string_from_chars(m.as_slice()))
}

proof fn lemma_split_join(s: Seq<char>)
    ensures
        dot_split(s).len() >= 1,
        dot_join(dot_split(s)) == s,
    decreases s.len(),
{
    if s.len() > 0 {
        let t = dot_split(s.drop_last());
        lemma_split_join(s.drop_last());
        if s.last() == '.' {
            assert(t.push(Seq::empty()).drop_last() =~= t);
            assert(s =~= s.drop_last() + seq!['.'] + Seq::<char>::empty());
        } else {
            let u = t.update(t.len() - 1, t.last().push(s.last()));
            assert(s =~= s.drop_last().push(s.last()));
            if t.len() == 1 {
                assert(dot_join(u) == u[0]);
            } else {
                assert(u.drop_last() =~= t.drop_last());
                assert(dot_join(t) == dot_join(t.drop_last()) + seq!['.'] + t.last());
                assert(dot_join(u) == dot_join(u.drop_last()) + seq!['.'] + u.last());
                assert(s =~= dot_join(t.drop_last()) + seq!['.'] + t.last().push(s.last()));
            }
        }
    }
}

proof fn lemma_join_front(t: Seq<Seq<char>>)
    requires
        t.len() >= 2,
    ensures
        dot_join(t) == t[0] + seq!['.'] + dot_join(t.drop_first()),
    decreases t.len(),
{
    if t.len() == 2 {
        assert(t.drop_last() =~= seq![t[0]]);
        assert(t.drop_first() =~= seq![t[1]]);
        assert(dot_join(t.drop_last()) == t[0]);
        assert(dot_join(t.drop_first()) == t[1]);
    } else {
        let a = t.drop_last();
        let b = t.drop_first();
        lemma_join_front(a);
        assert(a.drop_first() =~= b.drop_last());
        assert(b.last() == t.last());
        assert(a[0] == t[0]);
        assert(dot_join(t) == dot_join(a) + seq!['.'] + t.last());
        assert(dot_join(b) == dot_join(b.drop_last()) + seq!['.'] + b.last());
        assert(dot_join(a) == t[0] + seq!['.'] + dot_join(b.drop_last()));
        assert(dot_join(t) =~= t[0] + seq!['.'] + dot_join(b));
    }
}

/// A label parsed from a name gives that name back as its qualified name:
/// the service is registered under exactly `dev.astral.core`.
pub proof fn label_round_trip(s: Seq<char>)
    ensures
        qualified_of(label_parse(s)) == s,
{
    lemma_split_join(s);
    let t = dot_split(s);
    if t.len() == 1 {
        assert(qualified_of(label_parse(s)) =~= t[0]);
    } else if t.len() == 2 {
        lemma_join_front(t);
        assert(t.drop_first() =~= seq![t[1]]);
        assert(dot_join(t.drop_first()) == t[1]);
        assert(qualified_of(label_parse(s)) =~= t[0] + seq!['.'] + t[1]);
    } else {
        lemma_join_front(t);
        lemma_join_front(t.drop_first());
        assert(t.drop_first().drop_first() =~= t.subrange(2, t.len() as int));
        assert(qualified_of(label_parse(s)) =~= t[0] + seq!['.'] + (t[1] + seq!['.'] + dot_join(
            t.subrange(2, t.len() as int),
        )));
    }
}

/// The arguments the service process runs with.
pub open spec fn service_args_spec(
    listen: SocketAddress,
    data_dir: Seq<char>,
    qualified: Seq<char>,
    windows: bool,
) -> Seq<Seq<char>> {
    (if windows {
        seq!["--windows-service"@, qualified]
    } else {
        Seq::empty()
    }) + seq![
        "--listen"@,
        socket_text(listen),
        "--data-dir"@,
        data_dir,
        "--service-generation"@,
        SERVICE_GENERATION@,
    ]
}

/// Builds the service's arguments: on Windows the service-host flag and
/// the qualified name first, then listen address, data directory and the
/// generation marker.
pub fn build_service_args(listen: SocketAddress, data_dir: &str, label: &Label, windows: bool) -> (r:
    Vec<String>)
    ensures
        r@.map_values(|s: String| s@) == service_args_spec(
            listen,
            data_dir@,
            qualified_of(label@),
            windows,
        ),
{
    let mut args: Vec<String> = Vec::new();
    if windows {
        args.push("--windows-service".to_string());
        args.push(qualified_name(label));
    }
    let ghost head = args@.map_values(|s: String| s@);
    args.push("--listen".to_string());
    args.push(string_from_chars(socket_to_text(listen).as_slice()));
    args.push("--data-dir".to_string());
    args.push(data_dir.to_string());
    args.push("--service-generation".to_string());
    args.push(SERVICE_GENERATION.to_string());
    assert(args@.map_values(|s: String| s@) =~= head + seq![
        "--listen"@,
        socket_text(listen),
        "--data-dir"@,
        data_dir@,
        "--service-generation"@,
        SERVICE_GENERATION@,
    ]);
    args
}

/// Options shared by start, stop, uninstall and status.
#[derive(Debug, Clone, Copy)]
pub struct ServiceActionOptions {
    /// User-level service.
    pub user: bool,
}

/// Uninstall options.
#[derive(Debug, Clone, Copy)]
pub struct UninstallOptions {
    /// User-level service.
    pub user: bool,
    /// Delete the data root (dangerous; must be asked for).
    pub purge_data: bool,
}

/// The line the status command prints: the state, then the service
/// identity in parentheses.
pub fn status_line(status: ScmStatus, label: &str) -> (r: String)
    ensures
        r@ == scm_text(status) + " ("@ + label@ + ")"@,
{
    let mut m: Vec<char> = Vec::new();
    append_str(&mut m, scm_status_text(status));
    append_str(&mut m, " (");
    append_str(&mut m, label);
    append_str(&mut m, ")");
    string_from_chars(m.as_slice())
}

} // verus!
