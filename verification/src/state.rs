//! The shared link-state record and the subscriber-side update logic.
//!
//! The record mirrors what the watched device last reported on the bus: a
//! connection state (unknown values are preserved verbatim) and an optional
//! reference to the bus object of the currently associated network. The
//! subscriber applies each property-change signal with [`LinkState::apply_signal`],
//! which updates only the fields the signal names; the lock in
//! [`crate::shared`] serializes those calls, so every reader sees a whole,
//! fully-committed record.

use vstd::prelude::*;

verus! {

/// Display priority level consumed by the display framework.
#[derive(Clone, Copy, Debug, PartialEq, Eq, Structural)]
pub enum Severity {
    Good,
    Warning,
    Critical,
}

/// Severity assigned to a raw state string as reported on the bus:
/// `"disconnected"` is critical, `"connected"` is good, and anything
/// else (including `"disconnecting"` and unrecognized values) warns.
pub open spec fn severity_of_raw(s: Seq<char>) -> Severity {
    if s == "disconnected"@ {
        Severity::Critical
    } else if s == "connected"@ {
        Severity::Good
    } else {
        Severity::Warning
    }
}

/// The three recognized state strings are pairwise distinct, so exactly one
/// branch of [`severity_of_raw`] can apply to each.
pub proof fn lemma_state_literals_distinct()
    ensures
        "connected"@ != "disconnected"@,
        "connected"@ != "disconnecting"@,
        "disconnected"@ != "disconnecting"@,
{
    reveal_strlit("connected");
    reveal_strlit("disconnected");
    reveal_strlit("disconnecting");
    assert("connected"@.len() == 9);
    assert("disconnected"@.len() == 12);
    assert("disconnecting"@.len() == 13);
}

/// Maps a raw device state string to the severity shown for it.
pub fn get_widget_state(state: &str) -> (r: Severity)
    ensures
        r == severity_of_raw(state@),
{
    proof {
        lemma_state_literals_distinct();
    }
    let s: String = state.to_owned();
    if s == "disconnected".to_owned() {
        Severity::Critical
    } else if s == "connected".to_owned() {
        Severity::Good
    } else {
        Severity::Warning
    }
}

/// The device's reported connection state. The three values this watcher
/// understands get their own variants; any other reported string is kept
/// verbatim rather than rejected or defaulted.
#[derive(Debug)]
pub enum ConnectionState {
    Connected,
    Disconnected,
    Disconnecting,
    Other(String),
}

impl ConnectionState {
    /// The raw state string this value stands for, exactly as reported.
    pub open spec fn raw(self) -> Seq<char> {
        match self {
            ConnectionState::Connected => "connected"@,
            ConnectionState::Disconnected => "disconnected"@,
            ConnectionState::Disconnecting => "disconnecting"@,
            ConnectionState::Other(s) => s@,
        }
    }

    /// Well-formed values never hide a recognized state string inside
    /// `Other`, so `raw` determines the variant.
    pub open spec fn wf(self) -> bool {
        self matches ConnectionState::Other(s) ==> s@ != "connected"@ && s@ != "disconnected"@
            && s@ != "disconnecting"@
    }

    /// Severity of this state, agreeing with the raw-string mapping.
    pub fn severity(&self) -> (r: Severity)
        requires
            self.wf(),
        ensures
            r == severity_of_raw(self.raw()),
    {
        proof {
            lemma_state_literals_distinct();
        }
        match self {
            ConnectionState::Disconnected => Severity::Critical,
            ConnectionState::Connected => Severity::Good,
            ConnectionState::Disconnecting => Severity::Warning,
            ConnectionState::Other(_) => Severity::Warning,
        }
    }
}

impl Clone for ConnectionState {
    fn clone(&self) -> (r: Self)
        ensures
            r == *self,
    {
        match self {
            ConnectionState::Connected => ConnectionState::Connected,
            ConnectionState::Disconnected => ConnectionState::Disconnected,
            ConnectionState::Disconnecting => ConnectionState::Disconnecting,
            ConnectionState::Other(s) => ConnectionState::Other(s.clone()),
        }
    }
}

/// Parses a state string received from the bus. Recognized values become
/// their variant; everything else is preserved verbatim in `Other`.
pub fn parse_state(s: String) -> (r: ConnectionState)
    ensures
        r.wf(),
        r.raw() == s@,
        (r is Connected) == (s@ == "connected"@),
        (r is Disconnected) == (s@ == "disconnected"@),
        (r is Disconnecting) == (s@ == "disconnecting"@),
{
    proof {
        lemma_state_literals_distinct();
    }
    if s == "connected".to_owned() {
        ConnectionState::Connected
    } else if s == "disconnected".to_owned() {
        ConnectionState::Disconnected
    } else if s == "disconnecting".to_owned() {
        ConnectionState::Disconnecting
    } else {
        ConnectionState::Other(s)
    }
}

/// The shared link-state record: what the watched device last reported.
pub struct LinkState {
    /// The device's reported connection state.
    pub connection_state: ConnectionState,
    /// Bus object path of the currently associated network, if one was ever
    /// reported. Meaningful only while connected; it is kept (and ignored)
    /// otherwise, never cleared, exactly as reported.
    pub network_object_ref: Option<String>,
}

/// Mathematical model of a [`LinkState`]: the raw state string and the
/// optional network object path.
#[verifier::ext_equal]
pub struct LinkView {
    pub state: Seq<char>,
    pub network: Option<Seq<char>>,
}

impl View for LinkState {
    type V = LinkView;

    open spec fn view(&self) -> LinkView {
        LinkView { state: self.connection_state.raw(), network: self.network_object_ref.deep_view() }
    }
}

/// The part of a property-change signal this watcher reads: the new network
/// object path and/or the new state string, each present only when the
/// signal named that property (and its payload had the expected type).
pub struct PropertyChange {
    pub new_network: Option<String>,
    pub new_state: Option<String>,
}

/// Mathematical model of a [`PropertyChange`].
#[verifier::ext_equal]
pub struct ChangeView {
    pub new_network: Option<Seq<char>>,
    pub new_state: Option<Seq<char>>,
}

impl View for PropertyChange {
    type V = ChangeView;

    open spec fn view(&self) -> ChangeView {
        ChangeView { new_network: self.new_network.deep_view(), new_state: self.new_state.deep_view() }
    }
}

/// One signal applied to the model: each field present in the change set is
/// overwritten, each absent field is left as it was.
pub open spec fn apply_change(v: LinkView, c: ChangeView) -> LinkView {
    LinkView {
        state: if c.new_state is Some {
            c.new_state->0
        } else {
            v.state
        },
        network: if c.new_network is Some {
            Some(c.new_network->0)
        } else {
            v.network
        },
    }
}

/// A whole sequence of signals applied in delivery order.
pub open spec fn apply_all(v: LinkView, cs: Seq<ChangeView>) -> LinkView
    decreases cs.len(),
{
    if cs.len() == 0 {
        v
    } else {
        apply_all(apply_change(v, cs.first()), cs.drop_first())
    }
}

/// The update a property-change set carries for `name`: the payload of the
/// last pair so named, where a pair whose payload could not be read as a
/// string (`None`) still drops that update.
pub open spec fn prop_value(
    props: Seq<(Seq<char>, Option<Seq<char>>)>,
    name: Seq<char>,
) -> Option<Seq<char>>
    decreases props.len(),
{
    if props.len() == 0 {
        None
    } else if props.last().0 == name {
        props.last().1
    } else {
        prop_value(props.drop_last(), name)
    }
}

proof fn lemma_prop_names_distinct()
    ensures
        "State"@ != "ConnectedNetwork"@,
{
    reveal_strlit("State");
    reveal_strlit("ConnectedNetwork");
    assert("State"@.len() == 5);
    assert("ConnectedNetwork"@.len() == 16);
}

/// Reads a property-change signal's change set, delivered as
/// `(name, payload)` pairs: only the two properties of interest, `State`
/// and `ConnectedNetwork`, become updates. Every other pair is ignored,
/// and so is a pair whose payload could not be read as a string — that
/// single field's update is dropped, never the whole signal.
pub fn changes_of_interest(props: &Vec<(String, Option<String>)>) -> (r: PropertyChange)
    ensures
        r@.new_state == prop_value(props.deep_view(), "State"@),
        r@.new_network == prop_value(props.deep_view(), "ConnectedNetwork"@),
{
    let state_name: String = "State".to_owned();
    let network_name: String = "ConnectedNetwork".to_owned();
    let mut new_state: Option<String> = None;
    let mut new_network: Option<String> = None;
    let n: usize = props.len();
    let mut i: usize = 0;
    while i < n
        invariant
            n == props.len(),
            i <= n,
            state_name@ == "State"@,
            network_name@ == "ConnectedNetwork"@,
            new_state.deep_view() == prop_value(props.deep_view().take(i as int), "State"@),
            new_network.deep_view() == prop_value(
                props.deep_view().take(i as int),
                "ConnectedNetwork"@,
            ),
        decreases n - i,
    {
        let (name, payload) = &props[i];
        if *name == state_name {
            new_state = match payload {
                Some(v) => Some(v.clone()),
                None => None,
            };
        } else if *name == network_name {
            new_network = match payload {
                Some(v) => Some(v.clone()),
                None => None,
            };
        }
        proof {
            lemma_prop_names_distinct();
            let pv = props.deep_view();
            assert(pv.take(i as int + 1).drop_last() =~= pv.take(i as int));
            assert(pv.take(i as int + 1).last() == pv[i as int]);
        }
        i = i + 1;
    }
    proof {
        assert(props.deep_view().take(n as int) =~= props.deep_view());
    }
    PropertyChange { new_network, new_state }
}

/// The last state string written by a sequence of signals, or the starting
/// one where no signal in the sequence names the state property.
pub open spec fn last_state(v: LinkView, cs: Seq<ChangeView>) -> Seq<char>
    decreases cs.len(),
{
    if cs.len() == 0 {
        v.state
    } else if cs.last().new_state is Some {
        cs.last().new_state->0
    } else {
        last_state(v, cs.drop_last())
    }
}

/// The last network object path written by a sequence of signals, or the
/// starting one where no signal in the sequence names the network property.
pub open spec fn last_network(v: LinkView, cs: Seq<ChangeView>) -> Option<Seq<char>>
    decreases cs.len(),
{
    if cs.len() == 0 {
        v.network
    } else if cs.last().new_network is Some {
        Some(cs.last().new_network->0)
    } else {
        last_network(v, cs.drop_last())
    }
}

proof fn lemma_apply_all_snoc(v: LinkView, cs: Seq<ChangeView>, c: ChangeView)
    ensures
        apply_all(v, cs.push(c)) == apply_change(apply_all(v, cs), c),
    decreases cs.len(),
{
    if cs.len() == 0 {
        assert(cs.push(c).first() == c);
        assert(cs.push(c).drop_first() =~= Seq::<ChangeView>::empty());
        assert(apply_all(v, cs.push(c)) == apply_all(
            apply_change(v, c),
            Seq::<ChangeView>::empty(),
        ));
        assert(apply_all(apply_change(v, c), Seq::<ChangeView>::empty()) == apply_change(v, c));
        assert(apply_all(v, cs) == v);
    } else {
        assert(cs.push(c).first() == cs.first());
        assert(cs.push(c).drop_first() =~= cs.drop_first().push(c));
        assert(apply_all(v, cs.push(c)) == apply_all(
            apply_change(v, cs.first()),
            cs.drop_first().push(c),
        ));
        lemma_apply_all_snoc(apply_change(v, cs.first()), cs.drop_first(), c);
        assert(apply_all(v, cs) == apply_all(apply_change(v, cs.first()), cs.drop_first()));
    }
}

/// Partial-update idempotence: after any sequence of property-change
/// signals, each field of the record independently holds the last value a
/// signal wrote to it, and its starting value where no signal named it.
pub proof fn lemma_last_write_per_field(v: LinkView, cs: Seq<ChangeView>)
    ensures
        apply_all(v, cs).state == last_state(v, cs),
        apply_all(v, cs).network == last_network(v, cs),
    decreases cs.len(),
{
    if cs.len() > 0 {
        lemma_last_write_per_field(v, cs.drop_last());
        lemma_apply_all_snoc(v, cs.drop_last(), cs.last());
        assert(cs.drop_last().push(cs.last()) =~= cs);
    }
}

/// Atomic-pair update: the record visible once a signal has been applied is
/// exactly one whole [`apply_change`] step past the record visible before
/// it, so both fields always come from the same prefix of the delivered
/// signals. [`LinkState::apply_signal`] performs that step through one
/// exclusive borrow, and the embedding application holds the record's lock
/// around each call, so no reader can observe a half-updated pair.
pub proof fn lemma_atomic_snapshot(v: LinkView, cs: Seq<ChangeView>, i: int)
    requires
        0 <= i < cs.len(),
    ensures
        apply_all(v, cs.take(i + 1)) == apply_change(apply_all(v, cs.take(i)), cs[i]),
{
    lemma_apply_all_snoc(v, cs.take(i), cs[i]);
    assert(cs.take(i).push(cs[i]) =~= cs.take(i + 1));
}

impl LinkState {
    /// Every watcher starts out disconnected with no associated network.
    pub fn new() -> (r: LinkState)
        ensures
            r.wf(),
            r@.state == "disconnected"@,
            r@.network is None,
    {
        LinkState { connection_state: ConnectionState::Disconnected, network_object_ref: None }
    }

    /// Well-formedness of the record (see [`ConnectionState::wf`]).
    pub open spec fn wf(self) -> bool {
        self.connection_state.wf()
    }

    /// Runtime check of [`LinkState::wf`], for callers outside the
    /// verified library that must establish it before an update.
    pub fn is_wf(&self) -> (r: bool)
        ensures
            r == self.wf(),
    {
        match &self.connection_state {
            ConnectionState::Other(s) => !(*s == "connected".to_owned() || *s
                == "disconnected".to_owned() || *s == "disconnecting".to_owned()),
            _ => true,
        }
    }

    /// Applies one property-change signal: only the fields present in the
    /// change set are overwritten, and the returned flag says whether a
    /// refresh notification is owed — exactly when the signal named at
    /// least one property of interest.
    pub fn apply_signal(&mut self, change: PropertyChange) -> (notify: bool)
        requires
            old(self).wf(),
        ensures
            final(self).wf(),
            final(self)@ == apply_change(old(self)@, change@),
            notify == (change.new_state is Some || change.new_network is Some),
    {
        let PropertyChange { new_network, new_state } = change;
        let mut notify: bool = false;
        if let Some(n) = new_network {
            self.network_object_ref = Some(n);
            notify = true;
        }
        if let Some(s) = new_state {
            self.connection_state = parse_state(s);
            notify = true;
        }
        proof {
            assert(self@ =~= apply_change(old(self)@, change@));
        }
        notify
    }

    /// Writes the initially fetched state and (when one was fetched) network
    /// path in a single step, so no reader can see one without the other.
    pub fn set_initial(&mut self, state: String, network: Option<String>)
        requires
            old(self).wf(),
        ensures
            final(self).wf(),
            final(self)@.state == state@,
            final(self)@.network == (if network is Some {
                network.deep_view()
            } else {
                old(self)@.network
            }),
    {
        let _ = self.apply_signal(PropertyChange { new_network: network, new_state: Some(state) });
    }
}

impl Clone for LinkState {
    /// A reader's snapshot: an exact copy of the whole record.
    fn clone(&self) -> (r: Self)
        ensures
            r == *self,
    {
        LinkState {
            connection_state: self.connection_state.clone(),
            network_object_ref: match &self.network_object_ref {
                Some(s) => Some(s.clone()),
                None => None,
            },
        }
    }
}

/// Tells the subscriber's startup path whether the initially fetched state
/// calls for also fetching the connected-network property.
pub fn needs_network_fetch(state: &str) -> (r: bool)
    ensures
        r == (state@ == "connected"@),
{
    let s: String = state.to_owned();
    s == "connected".to_owned()
}

} // verus!
