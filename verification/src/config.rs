//! The configuration model: where the header providing service is found, and
//! how long fetched headers stay cached.
//!
//! A payload is a JSON object in which every field is optional. Fields that
//! the payload holds are laid over the defaults; a payload that is no object,
//! or that gives a known field a value of the wrong shape, is refused as a
//! whole.

use crate::error::FilterError;
use crate::interval::{humanized_interval, Interval};
use crate::json::{decode, json_decoded, DocumentView, JsonDocument, JsonMember, MemberView};
use vstd::prelude::*;

verus! {

/// Name of the field that holds the upstream cluster.
pub const CLUSTER_FIELD: &'static str = "header_providing_service_cluster";

/// Name of the field that holds the path to request.
pub const PATH_FIELD: &'static str = "header_providing_service_path";

/// Name of the field that holds the authority to present upstream.
pub const AUTHORITY_FIELD: &'static str = "header_providing_service_authority";

/// Name of the field that holds the cache expiry as a humanized duration.
pub const EXPIRY_FIELD: &'static str = "header_cache_expiry";

/// Cluster, and authority, used where the payload names none.
pub const DEFAULT_SERVICE: &'static str = "sidecar";

/// Path used where the payload names none.
pub const DEFAULT_PATH: &'static str = "/headers";

/// Seconds that headers stay cached where the payload says nothing.
pub const DEFAULT_EXPIRY_SECS: u64 = 360;

/// The settings of one filter instance.
#[derive(Clone, Debug)]
pub struct FilterConfig {
    /// The cluster that houses the header providing service.
    pub header_providing_service_cluster: String,
    /// The path to call on the header providing service.
    pub header_providing_service_path: String,
    /// The authority to set when calling the header providing service.
    pub header_providing_service_authority: String,
    /// The length of time to keep headers cached.
    pub header_cache_expiry: Interval,
}

/// A `FilterConfig` as sequences of characters.
pub struct ConfigView {
    pub cluster: Seq<char>,
    pub path: Seq<char>,
    pub authority: Seq<char>,
    pub expiry: Interval,
}

impl View for FilterConfig {
    type V = ConfigView;

    open spec fn view(&self) -> ConfigView {
        ConfigView {
            cluster: self.header_providing_service_cluster@,
            path: self.header_providing_service_path@,
            authority: self.header_providing_service_authority@,
            expiry: self.header_cache_expiry,
        }
    }
}

impl ConfigView {
    /// The cache expiry is a proper span of more than no time.
    pub open spec fn well_formed(self) -> bool {
        self.expiry.well_formed() && !self.expiry.is_zero()
    }
}

/// The configuration that an empty payload stands for.
pub open spec fn default_config() -> ConfigView {
    ConfigView {
        cluster: DEFAULT_SERVICE@,
        path: DEFAULT_PATH@,
        authority: DEFAULT_SERVICE@,
        expiry: Interval { secs: DEFAULT_EXPIRY_SECS, nanos: 0 },
    }
}

impl Default for FilterConfig {
    fn default() -> (res: FilterConfig)
        ensures
            res@ == default_config(),
            res@.well_formed(),
    {
        FilterConfig {
            header_providing_service_cluster: DEFAULT_SERVICE.to_owned(),
            header_providing_service_path: DEFAULT_PATH.to_owned(),
            header_providing_service_authority: DEFAULT_SERVICE.to_owned(),
            header_cache_expiry: Interval::from_secs(DEFAULT_EXPIRY_SECS),
        }
    }
}

/// The member that gives `name` its value: the last one of that name.
pub open spec fn find_member(members: Seq<MemberView>, name: Seq<char>) -> Option<MemberView>
    decreases members.len(),
{
    if members.len() == 0 {
        None
    } else if members.last().name == name {
        Some(members.last())
    } else {
        find_member(members.drop_last(), name)
    }
}

/// Whether `members` can set the text field `name`: a member of that name
/// holds a JSON string.
pub open spec fn text_field_ok(members: Seq<MemberView>, name: Seq<char>) -> bool {
    find_member(members, name) matches Some(m) ==> m.text is Some
}

/// The text that `members` give the field `name`, if they name it.
pub open spec fn text_field(members: Seq<MemberView>, name: Seq<char>) -> Option<Seq<char>> {
    match find_member(members, name) {
        Some(m) => m.text,
        None => None,
    }
}

/// The texts that a payload holds for the known fields.
#[derive(Clone, Debug)]
pub struct RequestedFields {
    pub cluster: Option<String>,
    pub path: Option<String>,
    pub authority: Option<String>,
    pub expiry: Option<String>,
}

/// A `RequestedFields` as sequences of characters.
pub struct RequestedView {
    pub cluster: Option<Seq<char>>,
    pub path: Option<Seq<char>>,
    pub authority: Option<Seq<char>>,
    pub expiry: Option<Seq<char>>,
}

impl View for RequestedFields {
    type V = RequestedView;

    open spec fn view(&self) -> RequestedView {
        RequestedView {
            cluster: self.cluster.deep_view(),
            path: self.path.deep_view(),
            authority: self.authority.deep_view(),
            expiry: self.expiry.deep_view(),
        }
    }
}

/// What a decoded payload asks for: the texts of the known fields, or the
/// refusal of the payload.
pub open spec fn requested(doc: DocumentView) -> Result<RequestedView, FilterError> {
    match doc {
        DocumentView::Object(members) => {
            if text_field_ok(members, CLUSTER_FIELD@) && text_field_ok(members, PATH_FIELD@)
                && text_field_ok(members, AUTHORITY_FIELD@) && text_field_ok(
                members,
                EXPIRY_FIELD@,
            ) {
                Ok(
                    RequestedView {
                        cluster: text_field(members, CLUSTER_FIELD@),
                        path: text_field(members, PATH_FIELD@),
                        authority: text_field(members, AUTHORITY_FIELD@),
                        expiry: text_field(members, EXPIRY_FIELD@),
                    },
                )
            } else {
                Err(FilterError::ConfigMalformed)
            }
        },
        _ => Err(FilterError::ConfigMalformed),
    }
}

/// Looks up the member that gives `name` its value.
fn lookup<'a>(members: &'a Vec<JsonMember>, name: &str) -> (res: Option<&'a JsonMember>)
    ensures
        res.deep_view() == find_member(members.deep_view(), name@),
{
    let key = name.to_owned();
    let mut found: Option<&'a JsonMember> = None;
    let mut i: usize = 0;
    while i < members.len()
        invariant
            i <= members.len(),
            key@ == name@,
            found.deep_view() == find_member(members.deep_view().take(i as int), name@),
        decreases members.len() - i,
    {
        proof {
            let upto = members.deep_view().take(i as int + 1);
            assert(upto.drop_last() =~= members.deep_view().take(i as int));
            assert(upto.last() == members[i as int]@);
        }
        if members[i].name == key {
            found = Some(&members[i]);
        }
        i += 1;
    }
    proof {
        assert(members.deep_view().take(i as int) =~= members.deep_view());
    }
    found
}

/// Reads one text field: the text that `members` give `name`, nothing where
/// they do not name it, and a refusal where they give it another kind of
/// value.
fn text_of(members: &Vec<JsonMember>, name: &str) -> (res: Result<Option<String>, FilterError>)
    ensures
        match res {
            Ok(text) => text_field_ok(members.deep_view(), name@) && text.deep_view()
                == text_field(members.deep_view(), name@),
            Err(e) => !text_field_ok(members.deep_view(), name@) && e
                == FilterError::ConfigMalformed,
        },
{
    match lookup(members, name) {
        None => Ok(None),
        Some(member) => match &member.text {
            Some(text) => Ok(Some(text.clone())),
            None => Err(FilterError::ConfigMalformed),
        },
    }
}

/// Picks the known fields out of a decoded payload.
///
/// The payload must be an object, and each known field that it names must
/// hold a JSON string; other members are passed over.
pub fn requested_fields(doc: &JsonDocument) -> (res: Result<RequestedFields, FilterError>)
    ensures
        match res {
            Ok(fields) => requested(doc@) == Ok::<RequestedView, FilterError>(fields@),
            Err(e) => requested(doc@) == Err::<RequestedView, FilterError>(e),
        },
{
    match doc {
        JsonDocument::Object(members) => {
            let cluster = match text_of(members, CLUSTER_FIELD) {
                Ok(text) => text,
                Err(e) => { return Err(e); },
            };
            let path = match text_of(members, PATH_FIELD) {
                Ok(text) => text,
                Err(e) => { return Err(e); },
            };
            let authority = match text_of(members, AUTHORITY_FIELD) {
                Ok(text) => text,
                Err(e) => { return Err(e); },
            };
            let expiry = match text_of(members, EXPIRY_FIELD) {
                Ok(text) => text,
                Err(e) => { return Err(e); },
            };
            Ok(RequestedFields { cluster, path, authority, expiry })
        },
        _ => Err(FilterError::ConfigMalformed),
    }
}

/// The expiry that a read duration stands for: the span itself where it is
/// a proper span of more than no time, and a refusal otherwise.
pub open spec fn expiry_of(read: Option<Interval>) -> Result<Interval, FilterError> {
    match read {
        Some(span) => if span.well_formed() && !span.is_zero() {
            Ok(span)
        } else {
            Err(FilterError::ConfigMalformed)
        },
        None => Err(FilterError::ConfigMalformed),
    }
}

/// Judges what the duration reader made of the expiry field.
pub fn accept_expiry(read: Option<Interval>) -> (res: Result<Interval, FilterError>)
    ensures
        res == expiry_of(read),
{
    match read {
        Some(span) => if span.nanos < crate::interval::NANOS_PER_SEC && !span.is_zero() {
            Ok(span)
        } else {
            Err(FilterError::ConfigMalformed)
        },
        None => Err(FilterError::ConfigMalformed),
    }
}

/// `base` with each given field laid over it.
pub open spec fn overlay(
    base: ConfigView,
    cluster: Option<Seq<char>>,
    path: Option<Seq<char>>,
    authority: Option<Seq<char>>,
    expiry: Option<Interval>,
) -> ConfigView {
    ConfigView {
        cluster: match cluster {
            Some(c) => c,
            None => base.cluster,
        },
        path: match path {
            Some(p) => p,
            None => base.path,
        },
        authority: match authority {
            Some(a) => a,
            None => base.authority,
        },
        expiry: match expiry {
            Some(e) => e,
            None => base.expiry,
        },
    }
}

/// The configuration that the requested fields resolve to over the defaults.
pub open spec fn resolved(fields: RequestedView) -> Result<ConfigView, FilterError> {
    match fields.expiry {
        None => Ok(overlay(default_config(), fields.cluster, fields.path, fields.authority, None)),
        Some(text) => match expiry_of(humanized_interval(text)) {
            Ok(span) => Ok(
                overlay(
                    default_config(),
                    fields.cluster,
                    fields.path,
                    fields.authority,
                    Some(span),
                ),
            ),
            Err(e) => Err(e),
        },
    }
}

/// The configuration that a decoded payload stands for.
pub open spec fn config_of(doc: DocumentView) -> Result<ConfigView, FilterError> {
    match requested(doc) {
        Ok(fields) => resolved(fields),
        Err(e) => Err(e),
    }
}

/// The configuration that a payload stands for.
pub open spec fn parsed(raw: Seq<u8>) -> Result<ConfigView, FilterError> {
    config_of(json_decoded(raw))
}

/// The outcome of reading a configuration, seen as sequences of characters.
pub open spec fn outcome_view(res: Result<FilterConfig, FilterError>) -> Result<
    ConfigView,
    FilterError,
> {
    match res {
        Ok(config) => Ok(config@),
        Err(e) => Err(e),
    }
}

impl FilterConfig {
    /// Lays the given fields over this configuration; a field that is not
    /// given keeps its value.
    pub fn overlay(
        self,
        cluster: Option<String>,
        path: Option<String>,
        authority: Option<String>,
        expiry: Option<Interval>,
    ) -> (res: FilterConfig)
        ensures
            res@ == overlay(
                self@,
                cluster.deep_view(),
                path.deep_view(),
                authority.deep_view(),
                expiry,
            ),
    {
        FilterConfig {
            header_providing_service_cluster: match cluster {
                Some(c) => c,
                None => self.header_providing_service_cluster,
            },
            header_providing_service_path: match path {
                Some(p) => p,
                None => self.header_providing_service_path,
            },
            header_providing_service_authority: match authority {
                Some(a) => a,
                None => self.header_providing_service_authority,
            },
            header_cache_expiry: match expiry {
                Some(e) => e,
                None => self.header_cache_expiry,
            },
        }
    }

    /// Resolves the requested fields over the defaults. The expiry text goes
    /// through the humanized duration reader; the payload is refused where
    /// the reader refuses the text or finds a span of no time.
    pub fn resolve(fields: RequestedFields) -> (res: Result<FilterConfig, FilterError>)
        ensures
            outcome_view(res) == resolved(fields@),
            res matches Ok(config) ==> config@.well_formed(),
    {
        let expiry = match &fields.expiry {
            None => None,
            Some(text) => match accept_expiry(Interval::parse(text.as_str())) {
                Ok(span) => Some(span),
                Err(e) => { return Err(e); },
            },
        };
        Ok(FilterConfig::default().overlay(fields.cluster, fields.path, fields.authority, expiry))
    }

    /// Reads the configuration out of a decoded payload.
    pub fn from_document(doc: &JsonDocument) -> (res: Result<FilterConfig, FilterError>)
        ensures
            outcome_view(res) == config_of(doc@),
            res matches Ok(config) ==> config@.well_formed(),
    {
        match requested_fields(doc) {
            Ok(fields) => FilterConfig::resolve(fields),
            Err(e) => Err(e),
        }
    }

    /// Reads the configuration out of a payload: the defaults, with the
    /// fields that the payload holds laid over them.
    pub fn parse(raw: &[u8]) -> (res: Result<FilterConfig, FilterError>)
        ensures
            outcome_view(res) == parsed(raw@),
            res matches Ok(config) ==> config@.well_formed(),
    {
        let doc = decode(raw);
        FilterConfig::from_document(&doc)
    }
}

} // verus!
