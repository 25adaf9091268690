//! The per-document session history controller. Each entry point checks that
//! the document is fully active, decides what changes and which messages the
//! coordinator must see, and returns those messages as values; the host
//! performs the sends and replies. Traversal completion re-enters through
//! [`History::activate_state`], which replays the document mutation and the
//! event dispatch in their fixed order.

use vstd::prelude::*;

use crate::codec;
use crate::messages::{entry_count_after, views_of, CoordinatorMsg, MsgView, TraversalDirection};
use crate::urls::{self, clone_opt_string, opt_str_view, opt_string_eq, Url, UrlView};
use crate::value::{serializable, Value, ValueView};

verus! {

/// Why an entry point failed: the document is not fully active or the target
/// URL was refused (`Security`), or the value could not be serialized
/// (`DataClone`).
#[derive(Clone, Copy, PartialEq, Eq, Structural, Debug)]
pub enum HistoryError {
    Security,
    DataClone,
}

/// Whether an operation stores its payload under a fresh identifier or under
/// the current one.
#[derive(Clone, Copy, PartialEq, Eq, Structural, Debug)]
pub enum PushOrReplace {
    Push,
    Replace,
}

/// The slice of the owning document that the controller reads and writes: its
/// URL and whether it is fully active.
pub struct Document {
    pub url: Url,
    pub fully_active: bool,
}

pub ghost struct DocumentView {
    pub url: UrlView,
    pub fully_active: bool,
}

impl View for Document {
    type V = DocumentView;

    open spec fn view(&self) -> DocumentView {
        DocumentView { url: self.url@, fully_active: self.fully_active }
    }
}

/// The per-document record of the current navigation state: the identifier of
/// the current stored payload (if any push, replace or restoration has
/// happened), the materialized state value, and the next identifier to hand
/// out.
pub struct History {
    pub state_id: Option<u64>,
    pub state_value: Value,
    pub next_state_id: u64,
}

pub ghost struct HistoryView {
    pub state_id: Option<u64>,
    pub state_value: ValueView,
    pub next_state_id: u64,
}

impl View for History {
    type V = HistoryView;

    open spec fn view(&self) -> HistoryView {
        HistoryView {
            state_id: self.state_id,
            state_value: self.state_value@,
            next_state_id: self.next_state_id,
        }
    }
}

/// Identifiers already handed out are below `next_state_id`.
pub open spec fn wf(h: HistoryView) -> bool {
    &&& h.next_state_id >= 1
    &&& match h.state_id {
        Some(id) => id < h.next_state_id,
        None => true,
    }
}

/// An effect of `Go`: either reload the document, or send the traversal
/// message.
pub enum GoEffect {
    Reload,
    Send(CoordinatorMsg),
}

pub ghost enum GoEffectView {
    Reload,
    Send(MsgView),
}

impl View for GoEffect {
    type V = GoEffectView;

    open spec fn view(&self) -> GoEffectView {
        match self {
            GoEffect::Reload => GoEffectView::Reload,
            GoEffect::Send(m) => GoEffectView::Send(m@),
        }
    }
}

/// An event activation asks the host to dispatch on the window, in order.
pub enum DocEvent {
    PopState(Value),
    HashChange(String, String),
}

pub ghost enum DocEventView {
    PopState(ValueView),
    HashChange(Seq<char>, Seq<char>),
}

impl View for DocEvent {
    type V = DocEventView;

    open spec fn view(&self) -> DocEventView {
        match self {
            DocEvent::PopState(v) => DocEventView::PopState(v@),
            DocEvent::HashChange(o, n) => DocEventView::HashChange(o@, n@),
        }
    }
}

/// What the host must do after an activation: scroll to the fragment if one
/// is given, then dispatch the events in order.
pub struct ActivationOutcome {
    pub scroll_fragment: Option<String>,
    pub events: Vec<DocEvent>,
}

pub ghost struct ActivationOutcomeView {
    pub scroll_fragment: Option<Seq<char>>,
    pub events: Seq<DocEventView>,
}

impl View for ActivationOutcome {
    type V = ActivationOutcomeView;

    open spec fn view(&self) -> ActivationOutcomeView {
        ActivationOutcomeView {
            scroll_fragment: opt_str_view(self.scroll_fragment),
            events: self.events@.map(|i: int, e: DocEvent| e@),
        }
    }
}

pub open spec fn opt_bytes_view(o: Option<Vec<u8>>) -> Option<Seq<u8>> {
    match o {
        Some(b) => Some(b@),
        None => None,
    }
}

/// The URL a push or replace will install: the document's own URL when no URL
/// argument is given, else what the argument resolves to against it.
pub open spec fn target_url_of(doc: DocumentView, url_arg: Option<Seq<char>>) -> Option<UrlView> {
    match url_arg {
        None => Some(doc.url),
        Some(s) => urls::resolve_spec(urls::href_of(doc.url), s),
    }
}

/// The identifier a push or replace stores under: a push always takes the
/// next fresh one; a replace reuses the current one, or takes a fresh one
/// when none exists yet.
pub open spec fn allocated_id(h: HistoryView, kind: PushOrReplace) -> u64 {
    match kind {
        PushOrReplace::Push => h.next_state_id,
        PushOrReplace::Replace => match h.state_id {
            Some(id) => id,
            None => h.next_state_id,
        },
    }
}

pub open spec fn next_id_after(h: HistoryView, kind: PushOrReplace) -> u64 {
    match kind {
        PushOrReplace::Push => (h.next_state_id + 1) as u64,
        PushOrReplace::Replace => match h.state_id {
            Some(_) => h.next_state_id,
            None => (h.next_state_id + 1) as u64,
        },
    }
}

pub open spec fn nav_msg_view(kind: PushOrReplace, id: u64, u: UrlView) -> MsgView {
    match kind {
        PushOrReplace::Push => MsgView::PushHistoryState(id, u),
        PushOrReplace::Replace => MsgView::ReplaceHistoryState(id, u),
    }
}

/// Everything a push or replace does, for every input. On failure nothing is
/// mutated and no message is produced; on success the two messages appear in
/// their mandatory order (navigation first, then the payload store), the
/// document's URL becomes the target, and the cached state value is the
/// written value read back through the codec.
pub open spec fn push_or_replace_post(
    h0: HistoryView,
    d0: DocumentView,
    h1: HistoryView,
    d1: DocumentView,
    v: ValueView,
    url_arg: Option<Seq<char>>,
    kind: PushOrReplace,
    r: Result<Vec<CoordinatorMsg>, HistoryError>,
) -> bool {
    if !d0.fully_active {
        &&& r matches Err(e) && e == HistoryError::Security
        &&& h1 == h0
        &&& d1 == d0
    } else if !serializable(v) {
        &&& r matches Err(e) && e == HistoryError::DataClone
        &&& h1 == h0
        &&& d1 == d0
    } else {
        match target_url_of(d0, url_arg) {
            None => {
                &&& r matches Err(e) && e == HistoryError::Security
                &&& h1 == h0
                &&& d1 == d0
            },
            Some(t) => {
                if url_arg is Some && !urls::can_rewrite(d0.url, t) {
                    &&& r matches Err(e) && e == HistoryError::Security
                    &&& h1 == h0
                    &&& d1 == d0
                } else {
                    let id = allocated_id(h0, kind);
                    &&& r matches Ok(msgs)
                    &&& msgs@.len() == 2
                    &&& msgs@[0]@ == nav_msg_view(kind, id, t)
                    &&& msgs@[1]@ == MsgView::SetHistoryState(id, codec::encode(v))
                    &&& h1 == HistoryView {
                        state_id: Some(id),
                        state_value: v,
                        next_state_id: next_id_after(h0, kind),
                    }
                    &&& d1 == DocumentView { url: t, fully_active: d0.fully_active }
                }
            },
        }
    }
}

/// The state value an activation materializes: the payload fetched from the
/// coordinator read back through the codec, or the null value when there is
/// no identifier, no stored payload, or the payload does not read.
pub open spec fn restored_value(state_id: Option<u64>, stored: Option<Seq<u8>>) -> ValueView {
    match state_id {
        None => ValueView::Null,
        Some(_) => match stored {
            None => ValueView::Null,
            Some(b) => match codec::decode(b) {
                Some(v) => v,
                None => ValueView::Null,
            },
        },
    }
}

/// The events an activation dispatches: popstate exactly when the state
/// identifier changed, then hashchange exactly when the fragment changed,
/// always in that order.
pub open spec fn expected_events(
    state_changed: bool,
    hash_changed: bool,
    v: ValueView,
    old_href: Seq<char>,
    new_href: Seq<char>,
) -> Seq<DocEventView> {
    (if state_changed {
        seq![DocEventView::PopState(v)]
    } else {
        Seq::empty()
    }) + (if hash_changed {
        seq![DocEventView::HashChange(old_href, new_href)]
    } else {
        Seq::empty()
    })
}

/// Everything an activation does: the document URL becomes the new URL, the
/// state identifier is taken over unconditionally, the state value is
/// restored from the fetched payload, the fragment (if any) is scrolled to,
/// and exactly the events of [`expected_events`] fire.
pub open spec fn activation_post(
    h0: HistoryView,
    d0: DocumentView,
    h1: HistoryView,
    d1: DocumentView,
    state_id: Option<u64>,
    u: UrlView,
    stored: Option<Seq<u8>>,
    out: ActivationOutcomeView,
) -> bool {
    let sc = state_id != h0.state_id;
    let hc = d0.url.fragment != u.fragment;
    let v = restored_value(state_id, stored);
    &&& d1 == DocumentView { url: u, fully_active: d0.fully_active }
    &&& h1 == HistoryView { state_id: state_id, state_value: v, next_state_id: h0.next_state_id }
    &&& out.scroll_fragment == u.fragment
    &&& out.events == expected_events(sc, hc, v, urls::href_of(d0.url), urls::href_of(u))
}

fn opt_u64_eq(a: &Option<u64>, b: &Option<u64>) -> (r: bool)
    ensures
        r == (*a == *b),
{
    match (a, b) {
        (None, None) => true,
        (Some(x), Some(y)) => *x == *y,
        _ => false,
    }
}

impl History {
    /// A fresh controller: no state has ever been pushed, the materialized
    /// value is null, and the first identifier to be handed out is 1.
    pub fn new_inherited() -> (h: History)
        ensures
            h@ == (HistoryView {
                state_id: None::<u64>,
                state_value: ValueView::Null,
                next_state_id: 1u64,
            }),
            wf(h@),
    {
        History { state_id: None, state_value: Value::Null, next_state_id: 1 }
    }

    /// The traversal request for `direction`, owed exactly when the document
    /// is fully active; the host sends it to the coordinator.
    pub fn traverse_history(&self, doc: &Document, direction: TraversalDirection) -> (r: Result<
        CoordinatorMsg,
        HistoryError,
    >)
        ensures
            doc@.fully_active ==> (r matches Ok(m) && m@ == MsgView::TraverseHistory(direction)),
            !doc@.fully_active ==> (r matches Err(e) && e == HistoryError::Security),
    {
        if !doc.fully_active {
            return Err(HistoryError::Security);
        }
        Ok(CoordinatorMsg::TraverseHistory(direction))
    }

    /// The request that asks the coordinator how many entries the joint
    /// session history holds; its `u32` reply is the length. Owed exactly
    /// when the document is fully active.
    #[allow(non_snake_case)]
    pub fn GetLength(&self, doc: &Document) -> (r: Result<CoordinatorMsg, HistoryError>)
        ensures
            doc@.fully_active ==> (r matches Ok(m) && m@ == MsgView::JointSessionHistoryLength),
            !doc@.fully_active ==> (r matches Err(e) && e == HistoryError::Security),
    {
        if !doc.fully_active {
            return Err(HistoryError::Security);
        }
        Ok(CoordinatorMsg::JointSessionHistoryLength)
    }

    /// The cached state value, owed exactly when the document is fully
    /// active. No side effects.
    #[allow(non_snake_case)]
    pub fn GetState(&self, doc: &Document) -> (r: Result<Value, HistoryError>)
        ensures
            doc@.fully_active ==> (r matches Ok(v) && v@ == self@.state_value),
            !doc@.fully_active ==> (r matches Err(e) && e == HistoryError::Security),
    {
        if !doc.fully_active {
            return Err(HistoryError::Security);
        }
        Ok(self.state_value.duplicate())
    }

    /// A move by `delta` through the joint session history. A zero delta
    /// never produces a traversal message: it asks for an ordinary reload.
    #[allow(non_snake_case)]
    pub fn Go(&self, doc: &Document, delta: i32) -> (r: Result<GoEffect, HistoryError>)
        ensures
            delta == 0 ==> (r matches Ok(e) && e@ == GoEffectView::Reload),
            delta != 0 && !doc@.fully_active ==> (r matches Err(e) && e == HistoryError::Security),
            delta > 0 && doc@.fully_active ==> (r matches Ok(e) && e@ == GoEffectView::Send(
                MsgView::TraverseHistory(TraversalDirection::Forward(delta as u64)),
            )),
            delta < 0 && doc@.fully_active ==> (r matches Ok(e) && e@ == GoEffectView::Send(
                MsgView::TraverseHistory(TraversalDirection::Back((-(delta as int)) as u64)),
            )),
    {
        if delta == 0 {
            return Ok(GoEffect::Reload);
        }
        let direction = if delta > 0 {
            TraversalDirection::Forward(delta as u64)
        } else {
            TraversalDirection::Back((-(delta as i64)) as u64)
        };
        match self.traverse_history(doc, direction) {
            Ok(m) => Ok(GoEffect::Send(m)),
            Err(e) => Err(e),
        }
    }

    /// A move one entry back: `traverse` with `Back(1)`.
    #[allow(non_snake_case)]
    pub fn Back(&self, doc: &Document) -> (r: Result<CoordinatorMsg, HistoryError>)
        ensures
            doc@.fully_active ==> (r matches Ok(m) && m@ == MsgView::TraverseHistory(
                TraversalDirection::Back(1),
            )),
            !doc@.fully_active ==> (r matches Err(e) && e == HistoryError::Security),
    {
        self.traverse_history(doc, TraversalDirection::Back(1))
    }

    /// A move one entry forward: `traverse` with `Forward(1)`.
    #[allow(non_snake_case)]
    pub fn Forward(&self, doc: &Document) -> (r: Result<CoordinatorMsg, HistoryError>)
        ensures
            doc@.fully_active ==> (r matches Ok(m) && m@ == MsgView::TraverseHistory(
                TraversalDirection::Forward(1),
            )),
            !doc@.fully_active ==> (r matches Err(e) && e == HistoryError::Security),
    {
        self.traverse_history(doc, TraversalDirection::Forward(1))
    }

    /// The batch notice that these identifiers are no longer needed; the host
    /// sends it to the coordinator.
    pub fn remove_states(&self, states: Vec<u64>) -> (m: CoordinatorMsg)
        ensures
            m@ == MsgView::RemoveHistoryStates(states@),
    {
        CoordinatorMsg::RemoveHistoryStates(states)
    }

    /// The shared body of push and replace: [`push_or_replace_post`] states
    /// everything it does.
    pub fn push_or_replace_state(
        &mut self,
        doc: &mut Document,
        value: &Value,
        url: &Option<String>,
        kind: PushOrReplace,
    ) -> (r: Result<Vec<CoordinatorMsg>, HistoryError>)
        requires
            old(self)@.next_state_id < u64::MAX,
            wf(old(self)@),
        ensures
            push_or_replace_post(
                old(self)@,
                old(doc)@,
                final(self)@,
                final(doc)@,
                value@,
                opt_str_view(*url),
                kind,
                r,
            ),
            wf(final(self)@),
    {
        if !doc.fully_active {
            return Err(HistoryError::Security);
        }
        let serialized = match codec::write(value) {
            Ok(b) => b,
            Err(_) => {
                return Err(HistoryError::DataClone);
            },
        };
        let new_url: Url = match url {
            Some(u) => {
                let resolved = match urls::resolve_url(&doc.url, u.as_str()) {
                    Some(ru) => ru,
                    None => {
                        return Err(HistoryError::Security);
                    },
                };
                if !Url::can_have_url_rewritten(&doc.url, &resolved) {
                    return Err(HistoryError::Security);
                }
                resolved
            },
            None => doc.url.duplicate(),
        };
        let state_id: u64 = match kind {
            PushOrReplace::Push => {
                let id = self.next_state_id;
                self.next_state_id = id + 1;
                self.state_id = Some(id);
                id
            },
            PushOrReplace::Replace => {
                match self.state_id {
                    Some(id) => id,
                    None => {
                        let id = self.next_state_id;
                        self.next_state_id = id + 1;
                        self.state_id = Some(id);
                        id
                    },
                }
            },
        };
        let mut msgs: Vec<CoordinatorMsg> = Vec::new();
        let nav = match kind {
            PushOrReplace::Push => CoordinatorMsg::PushHistoryState(state_id, new_url.duplicate()),
            PushOrReplace::Replace => CoordinatorMsg::ReplaceHistoryState(
                state_id,
                new_url.duplicate(),
            ),
        };
        msgs.push(nav);
        let restored = match codec::read(&serialized) {
            Ok(w) => w,
            Err(_) => Value::Null,
        };
        proof {
            codec::lemma_codec_round_trip(value@);
        }
        msgs.push(CoordinatorMsg::SetHistoryState(state_id, serialized));
        doc.url = new_url;
        self.state_value = restored;
        Ok(msgs)
    }

    /// Stores `data` under a fresh identifier, installs the target URL, and
    /// caches the value read back through the codec. `title` has no effect.
    #[allow(non_snake_case)]
    pub fn PushState(
        &mut self,
        doc: &mut Document,
        data: &Value,
        _title: &str,
        url: &Option<String>,
    ) -> (r: Result<Vec<CoordinatorMsg>, HistoryError>)
        requires
            old(self)@.next_state_id < u64::MAX,
            wf(old(self)@),
        ensures
            push_or_replace_post(
                old(self)@,
                old(doc)@,
                final(self)@,
                final(doc)@,
                data@,
                opt_str_view(*url),
                PushOrReplace::Push,
                r,
            ),
            wf(final(self)@),
    {
        self.push_or_replace_state(doc, data, url, PushOrReplace::Push)
    }

    /// Stores `data` under the current identifier (or a fresh one if none
    /// exists yet) without growing the history. `title` has no effect.
    #[allow(non_snake_case)]
    pub fn ReplaceState(
        &mut self,
        doc: &mut Document,
        data: &Value,
        _title: &str,
        url: &Option<String>,
    ) -> (r: Result<Vec<CoordinatorMsg>, HistoryError>)
        requires
            old(self)@.next_state_id < u64::MAX,
            wf(old(self)@),
        ensures
            push_or_replace_post(
                old(self)@,
                old(doc)@,
                final(self)@,
                final(doc)@,
                data@,
                opt_str_view(*url),
                PushOrReplace::Replace,
                r,
            ),
            wf(final(self)@),
    {
        self.push_or_replace_state(doc, data, url, PushOrReplace::Replace)
    }

    /// The fetch an activation needs before it can run: the stored payload
    /// for its identifier, if it has one. The host sends the request and
    /// hands the reply to [`History::activate_state`].
    pub fn activate_state_prepare(&self, state_id: Option<u64>) -> (r: Option<CoordinatorMsg>)
        ensures
            state_id matches Some(id) ==> (r matches Some(m) && m@ == MsgView::GetHistoryState(
                id,
            )),
            state_id is None ==> r is None,
    {
        match state_id {
            Some(id) => Some(CoordinatorMsg::GetHistoryState(id)),
            None => None,
        }
    }

    /// Completes a traversal: installs the new URL and identifier, restores
    /// the state value from the fetched payload, and returns the fragment to
    /// scroll to and the events to fire, as [`activation_post`] states.
    pub fn activate_state(
        &mut self,
        doc: &mut Document,
        state_id: Option<u64>,
        url: Url,
        stored: Option<Vec<u8>>,
    ) -> (out: ActivationOutcome)
        ensures
            activation_post(
                old(self)@,
                old(doc)@,
                final(self)@,
                final(doc)@,
                state_id,
                url@,
                opt_bytes_view(stored),
                out@,
            ),
    {
        let old_url = doc.url.duplicate();
        doc.url = url.duplicate();
        let hash_changed = !opt_string_eq(&old_url.fragment, &url.fragment);
        let scroll_fragment = clone_opt_string(&url.fragment);
        let state_changed = !opt_u64_eq(&state_id, &self.state_id);
        self.state_id = state_id;
        let restored: Value = match state_id {
            Some(_) => match &stored {
                Some(bytes) => match codec::read(bytes) {
                    Ok(w) => w,
                    Err(_) => Value::Null,
                },
                None => Value::Null,
            },
            None => Value::Null,
        };
        self.state_value = restored;
        let mut events: Vec<DocEvent> = Vec::new();
        if state_changed {
            events.push(DocEvent::PopState(self.state_value.duplicate()));
        }
        if hash_changed {
            events.push(DocEvent::HashChange(old_url.href(), url.href()));
        }
        let out = ActivationOutcome { scroll_fragment, events };
        proof {
            assert(out@.events =~= expected_events(
                state_id != old(self)@.state_id,
                old(doc)@.url.fragment != url@.fragment,
                restored_value(state_id, opt_bytes_view(stored)),
                urls::href_of(old(doc)@.url),
                urls::href_of(url@),
            ));
        }
        out
    }
}

/// After any successful push or replace of a value, the state the controller
/// holds — and therefore what `GetState` returns on the fully active document
/// — is structurally equal to that value: it survived the round trip through
/// the codec.
pub proof fn lemma_push_then_get_state_round_trip(
    h0: HistoryView,
    d0: DocumentView,
    h1: HistoryView,
    d1: DocumentView,
    v: ValueView,
    url_arg: Option<Seq<char>>,
    kind: PushOrReplace,
    r: Result<Vec<CoordinatorMsg>, HistoryError>,
)
    requires
        push_or_replace_post(h0, d0, h1, d1, v, url_arg, kind, r),
        r is Ok,
    ensures
        h1.state_value == v,
{
}

/// A successful push always hands the coordinator messages that grow the
/// joint session history by exactly one entry, from any starting count.
pub proof fn lemma_push_adds_one_entry(
    h0: HistoryView,
    d0: DocumentView,
    h1: HistoryView,
    d1: DocumentView,
    v: ValueView,
    url_arg: Option<Seq<char>>,
    r: Result<Vec<CoordinatorMsg>, HistoryError>,
    count: int,
)
    requires
        push_or_replace_post(h0, d0, h1, d1, v, url_arg, PushOrReplace::Push, r),
        r is Ok,
    ensures
        entry_count_after(count, views_of(r->Ok_0@)) == count + 1,
{
    lemma_two_messages_count(count, r->Ok_0);
}

/// A successful replace always hands the coordinator messages that leave the
/// joint session history's entry count unchanged, from any starting count.
pub proof fn lemma_replace_preserves_entry_count(
    h0: HistoryView,
    d0: DocumentView,
    h1: HistoryView,
    d1: DocumentView,
    v: ValueView,
    url_arg: Option<Seq<char>>,
    r: Result<Vec<CoordinatorMsg>, HistoryError>,
    count: int,
)
    requires
        push_or_replace_post(h0, d0, h1, d1, v, url_arg, PushOrReplace::Replace, r),
        r is Ok,
    ensures
        entry_count_after(count, views_of(r->Ok_0@)) == count,
{
    lemma_two_messages_count(count, r->Ok_0);
}

proof fn lemma_two_messages_count(count: int, msgs: Vec<CoordinatorMsg>)
    requires
        msgs@.len() == 2,
    ensures
        entry_count_after(count, views_of(msgs@)) == count + crate::messages::entry_count_delta(
            msgs@[0]@,
        ) + crate::messages::entry_count_delta(msgs@[1]@),
{
    let vs = views_of(msgs@);
    let d0 = crate::messages::entry_count_delta(vs[0]);
    let d1 = crate::messages::entry_count_delta(vs[1]);
    assert(vs.len() == 2);
    assert(vs[0] == msgs@[0]@);
    assert(vs[1] == msgs@[1]@);
    assert(vs.drop_first()[0] == vs[1]);
    assert(vs.drop_first().drop_first().len() == 0);
    assert(entry_count_after(count, vs) == entry_count_after(count + d0, vs.drop_first()));
    assert(entry_count_after(count + d0, vs.drop_first()) == entry_count_after(
        count + d0 + d1,
        vs.drop_first().drop_first(),
    ));
    assert(entry_count_after(count + d0 + d1, vs.drop_first().drop_first()) == count + d0 + d1);
}

/// During an activation, a popstate event fires exactly when the state
/// identifier changed (and then first), and a hashchange event fires exactly
/// when the fragment changed (and then last), each independent of the other.
pub proof fn lemma_activation_event_discipline(
    state_changed: bool,
    hash_changed: bool,
    v: ValueView,
    old_href: Seq<char>,
    new_href: Seq<char>,
    e: Seq<DocEventView>,
)
    requires
        e == expected_events(state_changed, hash_changed, v, old_href, new_href),
    ensures
        state_changed ==> e.len() >= 1 && e[0] == DocEventView::PopState(v),
        !state_changed ==> (forall|i: int| 0 <= i < e.len() ==> !(e[i] is PopState)),
        hash_changed ==> e.len() >= 1 && e.last() == DocEventView::HashChange(old_href, new_href),
        !hash_changed ==> (forall|i: int| 0 <= i < e.len() ==> !(e[i] is HashChange)),
{
}

} // verus!
