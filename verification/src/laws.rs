//! What holds of the filter as a whole, proved from the contracts of its
//! parts.

use crate::cache::{SlotView, StoreOutcome, WriteView};
use crate::config::{
    config_of, default_config, find_member, text_field, ConfigView, AUTHORITY_FIELD,
    CLUSTER_FIELD, EXPIRY_FIELD, PATH_FIELD,
};
use crate::error::FilterError;
use crate::injector::{
    outcome_for, rejection, Action, OutcomeView, MARKER_HEADER, POWERED_BY, REJECTION_BODY,
};
use crate::interval::humanized_interval;
use crate::json::{json_decoded, DocumentView, MemberView};
use crate::refresh::{
    bootstrap_interval, configure_write, configured, reset_write, response_write, ControllerView,
    Phase,
};
use vstd::prelude::*;

verus! {

/// Whether some member of an object has the name `name`.
pub open spec fn names(members: Seq<MemberView>, name: Seq<char>) -> bool {
    exists|i: int| 0 <= i < members.len() && #[trigger] members[i].name == name
}

/// Whether `name` is one of the four fields that a configuration has.
pub open spec fn known_field(name: Seq<char>) -> bool {
    name == CLUSTER_FIELD@ || name == PATH_FIELD@ || name == AUTHORITY_FIELD@ || name
        == EXPIRY_FIELD@
}

/// A name that no member has is not found, and a member that is found has
/// the name that was looked for and is one of the members.
pub proof fn found_member_is_named(members: Seq<MemberView>, name: Seq<char>)
    ensures
        names(members, name) <==> find_member(members, name) is Some,
        find_member(members, name) matches Some(m) ==> m.name == name && members.contains(m),
    decreases members.len(),
{
    if members.len() > 0 {
        let rest = members.drop_last();
        found_member_is_named(rest, name);
        if members.last().name == name {
            assert(members[members.len() - 1].name == name);
        } else {
            if names(members, name) {
                let i = choose|i: int| 0 <= i < members.len() && #[trigger] members[i].name == name;
                assert(rest[i].name == name);
            }
            if names(rest, name) {
                let i = choose|i: int| 0 <= i < rest.len() && #[trigger] rest[i].name == name;
                assert(members[i].name == name);
            }
            if find_member(rest, name) is Some {
                let m = find_member(rest, name)->0;
                let i = choose|i: int| 0 <= i < rest.len() && rest[i] == m;
                assert(members[i] == m);
            }
        }
    }
}

/// In a configuration read from a payload, every field that the payload
/// does not name has its default, and every text field that it names has the
/// text that the payload gives it.
pub proof fn unset_fields_take_defaults(members: Seq<MemberView>, config: ConfigView)
    requires
        config_of(DocumentView::Object(members)) == Ok::<ConfigView, FilterError>(config),
    ensures
        !names(members, CLUSTER_FIELD@) ==> config.cluster == default_config().cluster,
        !names(members, PATH_FIELD@) ==> config.path == default_config().path,
        !names(members, AUTHORITY_FIELD@) ==> config.authority == default_config().authority,
        !names(members, EXPIRY_FIELD@) ==> config.expiry == default_config().expiry,
        names(members, CLUSTER_FIELD@) ==> Some(config.cluster) == text_field(
            members,
            CLUSTER_FIELD@,
        ),
        names(members, PATH_FIELD@) ==> Some(config.path) == text_field(members, PATH_FIELD@),
        names(members, AUTHORITY_FIELD@) ==> Some(config.authority) == text_field(
            members,
            AUTHORITY_FIELD@,
        ),
        config.well_formed(),
{
    found_member_is_named(members, CLUSTER_FIELD@);
    found_member_is_named(members, PATH_FIELD@);
    found_member_is_named(members, AUTHORITY_FIELD@);
    found_member_is_named(members, EXPIRY_FIELD@);
}

/// A payload without members stands for the default configuration.
pub proof fn empty_object_is_default()
    ensures
        config_of(DocumentView::Object(Seq::empty())) == Ok::<ConfigView, FilterError>(
            default_config(),
        ),
{
}

/// A payload that gives a known field a value that is no JSON string is
/// refused as malformed, whatever else it holds.
pub proof fn wrong_typed_field_is_refused(
    members: Seq<MemberView>,
    name: Seq<char>,
    member: MemberView,
)
    requires
        known_field(name),
        find_member(members, name) == Some(member),
        member.text is None,
    ensures
        config_of(DocumentView::Object(members)) == Err::<ConfigView, FilterError>(
            FilterError::ConfigMalformed,
        ),
{
}

/// A payload whose expiry is a text that the duration reader refuses is
/// refused as malformed, whatever else it holds.
pub proof fn malformed_duration_is_refused(
    members: Seq<MemberView>,
    member: MemberView,
    text: Seq<char>,
)
    requires
        find_member(members, EXPIRY_FIELD@) == Some(member),
        member.text == Some(text),
        humanized_interval(text) is None,
    ensures
        config_of(DocumentView::Object(members)) == Err::<ConfigView, FilterError>(
            FilterError::ConfigMalformed,
        ),
{
}

/// Reading a configuration either gives a sound configuration or refuses
/// the payload as malformed: there is nothing in between.
pub proof fn payload_is_taken_whole_or_refused(doc: DocumentView)
    ensures
        match config_of(doc) {
            Ok(config) => config.well_formed(),
            Err(e) => e == FilterError::ConfigMalformed,
        },
        !(doc is Object) ==> config_of(doc) is Err,
{
}

/// The filter as a whole: the controller, and the slot that the controller
/// writes and that requests read.
pub struct FilterView {
    pub controller: ControllerView,
    pub slot: SlotView,
}

/// What a request meets in the slot: the payload as the decoder sees it, or
/// nothing where the slot is empty.
pub open spec fn slot_document(slot: SlotView) -> Option<DocumentView> {
    match slot.value {
        Some(bytes) => Some(json_decoded(bytes)),
        None => None,
    }
}

impl FilterView {
    /// Whether a configuration payload makes the filter active: the payload
    /// is accepted and the slot takes the write that empties it.
    pub open spec fn activates(self, raw: Option<Seq<u8>>) -> bool {
        configure_write(raw) matches Ok(write) && self.slot.outcome(write) == StoreOutcome::Stored
    }

    /// The filter after the host handed over a configuration payload and
    /// performed the write that it led to.
    pub open spec fn configure(self, raw: Option<Seq<u8>>) -> FilterView {
        match configure_write(raw) {
            Ok(write) => FilterView {
                controller: self.controller.after_configure(raw),
                slot: self.slot.after(write),
            },
            Err(_) => self,
        }
    }

    /// The filter after a tick for which the host could, or could not, start
    /// the fetch.
    pub open spec fn tick(self, dispatched: bool) -> FilterView {
        FilterView {
            controller: self.controller.after_tick().after_dispatch(dispatched),
            slot: self.slot,
        }
    }

    /// The filter after a fetch completed with `body` and the host performed
    /// the write that the body led to.
    pub open spec fn respond(self, body: Option<Seq<u8>>) -> FilterView {
        match response_write(body) {
            Ok(write) => FilterView {
                controller: self.controller.after_store(self.slot.outcome(write)),
                slot: self.slot.after(write),
            },
            Err(_) => self,
        }
    }

    /// What becomes of a request that arrives now.
    pub open spec fn request(self) -> OutcomeView {
        outcome_for(slot_document(self.slot))
    }
}

/// Emptying the slot leaves it without a payload wherever the write is
/// taken, and a slot that has versions left takes it.
pub proof fn reset_empties_slot(slot: SlotView)
    ensures
        slot.version < u32::MAX ==> slot.outcome(reset_write()) == StoreOutcome::Stored,
        slot.outcome(reset_write()) == StoreOutcome::Stored ==> slot.after(reset_write()).value
            is None,
{
}

/// A write that is not taken leaves the slot as it was, and a write that is
/// taken leaves its value in the slot under the next version.
pub proof fn slot_follows_writes(slot: SlotView, write: WriteView)
    ensures
        slot.outcome(write) != StoreOutcome::Stored ==> slot.after(write) == slot,
        slot.outcome(write) == StoreOutcome::Stored ==> slot.after(write).value == write.value
            && slot.after(write).version == slot.version + 1,
        write.expected_version is None && slot.version < u32::MAX ==> slot.outcome(write)
            == StoreOutcome::Stored,
{
}

/// Once a configuration payload has made the filter active, the slot is
/// empty, the timer runs at the bootstrap interval, and the controller waits
/// for its first tick under the configuration that the payload stands for.
pub proof fn configure_empties_cache_and_arms_bootstrap(filter: FilterView, raw: Option<Seq<u8>>)
    requires
        filter.activates(raw),
    ensures
        filter.configure(raw).slot.value is None,
        filter.configure(raw).controller.tick_period == Some(bootstrap_interval()),
        filter.configure(raw).controller.phase == Phase::Initializing,
        configured(raw) == Ok::<ConfigView, FilterError>(filter.configure(raw).controller.config),
        filter.configure(raw).controller.well_formed(),
{
    let bytes = raw->0;
    payload_is_taken_whole_or_refused(json_decoded(bytes));
}

/// A configuration payload that is refused leaves the whole filter as it
/// was: no part of the payload is applied.
pub proof fn refused_payload_changes_nothing(filter: FilterView, raw: Option<Seq<u8>>)
    requires
        configured(raw) is Err,
    ensures
        filter.configure(raw) == filter,
        !filter.activates(raw),
{
}

/// A request that meets an empty slot is answered with status 500, the fixed
/// body and the marker header, and is held; the slot stays as it is, since
/// an outcome holds no write.
pub proof fn request_before_fetch_is_rejected(filter: FilterView)
    requires
        filter.slot.value is None,
    ensures
        filter.request() == (OutcomeView::Rejected { response: rejection() }),
        filter.request().action() == Action::Pause,
        filter.request().failure() == Some(FilterError::CacheNeverPopulated),
        rejection().status == 500,
        rejection().body == REJECTION_BODY@,
        rejection().headers == seq![(MARKER_HEADER@, POWERED_BY@)],
{
}

/// The slot of an active filter stays empty until a write of a fetched
/// payload is taken: ticks never touch it, and a response fills it only
/// where its body is not empty and the slot takes the write.
pub proof fn slot_stays_empty_until_a_fetch_succeeds(
    filter: FilterView,
    dispatched: bool,
    body: Option<Seq<u8>>,
)
    requires
        filter.slot.value is None,
    ensures
        filter.tick(dispatched).slot == filter.slot,
        filter.respond(body).slot.value is Some ==> body is Some && body->0.len() > 0
            && filter.slot.outcome(response_write(body)->Ok_0) == StoreOutcome::Stored,
{
}

/// A fetched payload that the slot takes is what the next request meets, and
/// the timer stays where the tick put it: at the configured expiry.
pub proof fn fetched_payload_is_served(filter: FilterView, payload: Seq<u8>)
    requires
        payload.len() > 0,
        filter.slot.version < u32::MAX,
    ensures
        filter.respond(Some(payload)).slot.value == Some(payload),
        filter.respond(Some(payload)).controller == filter.controller,
        filter.respond(Some(payload)).request() == outcome_for(Some(json_decoded(payload))),
        filter.tick(true).respond(Some(payload)).controller.tick_period == Some(
            filter.controller.config.expiry,
        ),
{
}

/// A response without a body, or with an empty one, changes nothing: a
/// payload cached before stays in the slot, and the timer stays where the
/// tick put it.
pub proof fn empty_response_changes_nothing(filter: FilterView, body: Option<Seq<u8>>)
    requires
        body matches Some(payload) ==> payload.len() == 0,
    ensures
        response_write(body) == Err::<WriteView, FilterError>(FilterError::EmptyUpstreamResponse),
        filter.respond(body) == filter,
{
}

/// A write of a fetched payload that the slot does not take leaves the slot
/// as it was and moves the timer back to the bootstrap interval.
pub proof fn refused_store_retries_fast(filter: FilterView, payload: Seq<u8>)
    requires
        payload.len() > 0,
        filter.slot.version >= u32::MAX,
    ensures
        filter.respond(Some(payload)).slot == filter.slot,
        filter.respond(Some(payload)).controller == filter.controller.fast_retry(),
        filter.respond(Some(payload)).controller.tick_period == Some(bootstrap_interval()),
{
}

/// A request that meets a payload always goes on, never a rejection: with
/// one header per member where the payload decodes as an object, and
/// unmodified, under a recorded decode failure, where it is anything else.
pub proof fn populated_cache_always_forwards(filter: FilterView)
    requires
        filter.slot.value is Some,
    ensures
        filter.request().action() == Action::Continue,
        match json_decoded(filter.slot.value->0) {
            DocumentView::Object(members) => filter.request() == (OutcomeView::Forwarded {
                headers: crate::injector::headers_of(members),
                warning: None,
            }),
            _ => filter.request() == (OutcomeView::Forwarded {
                headers: Seq::empty(),
                warning: Some(FilterError::CacheDecodeFailure),
            }),
        },
{
}

/// A fetch that could not be started leaves the timer at the bootstrap
/// interval, in whatever phase and at whatever interval the controller was,
/// and leaves the slot alone.
pub proof fn dispatch_failure_resets_interval(filter: FilterView)
    ensures
        filter.controller.after_dispatch(false).tick_period == Some(bootstrap_interval()),
        filter.controller.after_dispatch(false).phase == filter.controller.phase,
        filter.controller.after_dispatch(false).config == filter.controller.config,
        filter.tick(false).controller.tick_period == Some(bootstrap_interval()),
        filter.tick(false).slot == filter.slot,
        filter.tick(true).controller.tick_period == Some(filter.controller.config.expiry),
        filter.tick(true).controller.phase == Phase::Steady,
{
}

/// Every step keeps the controller sound: its configuration is sound, and
/// its timer runs at the bootstrap interval or at the configured expiry.
pub proof fn steps_keep_controller_sound(
    filter: FilterView,
    raw: Option<Seq<u8>>,
    dispatched: bool,
    body: Option<Seq<u8>>,
)
    requires
        filter.controller.well_formed(),
    ensures
        filter.configure(raw).controller.well_formed(),
        filter.tick(dispatched).controller.well_formed(),
        filter.respond(body).controller.well_formed(),
{
    if raw is Some {
        payload_is_taken_whole_or_refused(json_decoded(raw->0));
    }
}

} // verus!
