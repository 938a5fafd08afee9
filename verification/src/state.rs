//! The states of the peripheral, as its STATE register reports them.
//!
//! The tracker is an observer. After every interrupt it is shown the STATE
//! register and adopts the state it reads there. The peripheral moves from
//! state to state only along the edges of its state diagram, so between two
//! observations it has gone through a chain of such edges; `route` gives the
//! chain that the tracker assumes.
use vstd::prelude::*;
use crate::constants::{
    RADIO_STATE_DISABLE, RADIO_STATE_RX, RADIO_STATE_RXDISABLE, RADIO_STATE_RXIDLE,
    RADIO_STATE_RXRU, RADIO_STATE_TX, RADIO_STATE_TXDISABLE, RADIO_STATE_TXIDLE, RADIO_STATE_TXRU,
};
use crate::model::{rx_family, tx_family};

verus! {

/// No route between two states has more edges than this.
pub const LONGEST_ROUTE: usize = 5;

/// A state of the peripheral.
#[derive(PartialEq, Eq, Structural, Debug, Copy, Clone)]
pub enum PeripheralState {
    /// The state of the radio at startup.
    Disabled,
    RxRu,
    RxIdle,
    Rx,
    RxDisable,
    TxRu,
    TxIdle,
    Tx,
    TxDisable,
}

impl PeripheralState {
    /// The word that the STATE register holds in this state.
    pub open spec fn register_value(self) -> u32 {
        match self {
            PeripheralState::Disabled => RADIO_STATE_DISABLE,
            PeripheralState::RxRu => RADIO_STATE_RXRU,
            PeripheralState::RxIdle => RADIO_STATE_RXIDLE,
            PeripheralState::Rx => RADIO_STATE_RX,
            PeripheralState::RxDisable => RADIO_STATE_RXDISABLE,
            PeripheralState::TxRu => RADIO_STATE_TXRU,
            PeripheralState::TxIdle => RADIO_STATE_TXIDLE,
            PeripheralState::Tx => RADIO_STATE_TX,
            PeripheralState::TxDisable => RADIO_STATE_TXDISABLE,
        }
    }

    /// The state that a STATE word names, if it names one.
    pub open spec fn decode(word: u32) -> Option<PeripheralState> {
        if word == RADIO_STATE_DISABLE {
            Some(PeripheralState::Disabled)
        } else if word == RADIO_STATE_RXRU {
            Some(PeripheralState::RxRu)
        } else if word == RADIO_STATE_RXIDLE {
            Some(PeripheralState::RxIdle)
        } else if word == RADIO_STATE_RX {
            Some(PeripheralState::Rx)
        } else if word == RADIO_STATE_RXDISABLE {
            Some(PeripheralState::RxDisable)
        } else if word == RADIO_STATE_TXRU {
            Some(PeripheralState::TxRu)
        } else if word == RADIO_STATE_TXIDLE {
            Some(PeripheralState::TxIdle)
        } else if word == RADIO_STATE_TX {
            Some(PeripheralState::Tx)
        } else if word == RADIO_STATE_TXDISABLE {
            Some(PeripheralState::TxDisable)
        } else {
            None
        }
    }

    /// One of the four transmitter states.
    pub open spec fn is_tx(self) -> bool {
        self == PeripheralState::TxRu || self == PeripheralState::TxIdle || self
            == PeripheralState::Tx || self == PeripheralState::TxDisable
    }

    /// One of the four receiver states.
    pub open spec fn is_rx(self) -> bool {
        self == PeripheralState::RxRu || self == PeripheralState::RxIdle || self
            == PeripheralState::Rx || self == PeripheralState::RxDisable
    }

    /// The edges of the state diagram: the peripheral can go from `self` to
    /// `next` in one step.
    pub open spec fn steps_to(self, next: PeripheralState) -> bool {
        match (self, next) {
            (PeripheralState::RxDisable, PeripheralState::Disabled) => true,
            (PeripheralState::TxDisable, PeripheralState::Disabled) => true,
            (PeripheralState::TxRu, PeripheralState::TxDisable) => true,
            (PeripheralState::TxIdle, PeripheralState::TxDisable) => true,
            (PeripheralState::Tx, PeripheralState::TxDisable) => true,
            (PeripheralState::RxRu, PeripheralState::RxDisable) => true,
            (PeripheralState::RxIdle, PeripheralState::RxDisable) => true,
            (PeripheralState::Rx, PeripheralState::RxDisable) => true,
            (PeripheralState::Disabled, PeripheralState::TxRu) => true,
            (PeripheralState::TxIdle, PeripheralState::TxRu) => true,
            (PeripheralState::RxIdle, PeripheralState::TxRu) => true,
            (PeripheralState::Disabled, PeripheralState::RxRu) => true,
            (PeripheralState::TxIdle, PeripheralState::RxRu) => true,
            (PeripheralState::RxIdle, PeripheralState::RxRu) => true,
            (PeripheralState::TxRu, PeripheralState::TxIdle) => true,
            (PeripheralState::Tx, PeripheralState::TxIdle) => true,
            (PeripheralState::RxRu, PeripheralState::RxIdle) => true,
            (PeripheralState::Rx, PeripheralState::RxIdle) => true,
            (PeripheralState::TxIdle, PeripheralState::Tx) => true,
            (PeripheralState::RxIdle, PeripheralState::Rx) => true,
            _ => false,
        }
    }

    /// The first state on the way from `self` to `target`; `target` itself
    /// when the peripheral is there already.
    pub open spec fn next_hop(self, target: PeripheralState) -> PeripheralState {
        if self == target {
            target
        } else {
            match self {
                PeripheralState::Disabled => if target.is_tx() {
                    PeripheralState::TxRu
                } else {
                    PeripheralState::RxRu
                },
                PeripheralState::RxRu => if target == PeripheralState::RxIdle || target
                    == PeripheralState::Rx {
                    PeripheralState::RxIdle
                } else {
                    PeripheralState::RxDisable
                },
                PeripheralState::RxIdle => if target == PeripheralState::Rx || target
                    == PeripheralState::RxRu {
                    target
                } else if target.is_tx() {
                    PeripheralState::TxRu
                } else {
                    PeripheralState::RxDisable
                },
                PeripheralState::Rx => if target == PeripheralState::RxDisable || target
                    == PeripheralState::Disabled {
                    PeripheralState::RxDisable
                } else {
                    PeripheralState::RxIdle
                },
                PeripheralState::RxDisable => PeripheralState::Disabled,
                PeripheralState::TxRu => if target == PeripheralState::TxDisable || target
                    == PeripheralState::Disabled {
                    PeripheralState::TxDisable
                } else {
                    PeripheralState::TxIdle
                },
                PeripheralState::TxIdle => if target == PeripheralState::Tx || target
                    == PeripheralState::TxRu {
                    target
                } else if target.is_rx() {
                    PeripheralState::RxRu
                } else {
                    PeripheralState::TxDisable
                },
                PeripheralState::Tx => if target == PeripheralState::TxDisable || target
                    == PeripheralState::Disabled {
                    PeripheralState::TxDisable
                } else {
                    PeripheralState::TxIdle
                },
                PeripheralState::TxDisable => PeripheralState::Disabled,
            }
        }
    }

    /// The states passed on the way from `self` to `target`, `target` last,
    /// as far as `limit` steps lead.
    pub open spec fn route_within(self, target: PeripheralState, limit: nat) -> Seq<
        PeripheralState,
    >
        decreases limit,
    {
        if self == target || limit == 0 {
            seq![]
        } else {
            seq![self.next_hop(target)] + self.next_hop(target).route_within(
                target,
                (limit - 1) as nat,
            )
        }
    }

    /// The states passed on the way from `self` to `target`, `target` last.
    /// It is empty when the peripheral is at `target` already.
    pub open spec fn route(self, target: PeripheralState) -> Seq<PeripheralState> {
        self.route_within(target, LONGEST_ROUTE as nat)
    }

    /// The state of the tracker after it has been shown a STATE word: the
    /// state that the word names, or the old state if it names none.
    pub open spec fn observe(self, word: u32) -> PeripheralState {
        match PeripheralState::decode(word) {
            Some(state) => state,
            None => self,
        }
    }

    /// The state that a STATE word names, if it names one.
    pub fn from_register(word: u32) -> (state: Option<PeripheralState>)
        ensures
            state == PeripheralState::decode(word),
            state matches Some(s) ==> s.register_value() == word,
    {
        if word == RADIO_STATE_DISABLE {
            Some(PeripheralState::Disabled)
        } else if word == RADIO_STATE_RXRU {
            Some(PeripheralState::RxRu)
        } else if word == RADIO_STATE_RXIDLE {
            Some(PeripheralState::RxIdle)
        } else if word == RADIO_STATE_RX {
            Some(PeripheralState::Rx)
        } else if word == RADIO_STATE_RXDISABLE {
            Some(PeripheralState::RxDisable)
        } else if word == RADIO_STATE_TXRU {
            Some(PeripheralState::TxRu)
        } else if word == RADIO_STATE_TXIDLE {
            Some(PeripheralState::TxIdle)
        } else if word == RADIO_STATE_TX {
            Some(PeripheralState::Tx)
        } else if word == RADIO_STATE_TXDISABLE {
            Some(PeripheralState::TxDisable)
        } else {
            None
        }
    }

    /// The word that the STATE register holds in this state.
    pub fn as_register(&self) -> (word: u32)
        ensures
            word == self.register_value(),
            PeripheralState::decode(word) == Some(*self),
    {
        match *self {
            PeripheralState::Disabled => RADIO_STATE_DISABLE,
            PeripheralState::RxRu => RADIO_STATE_RXRU,
            PeripheralState::RxIdle => RADIO_STATE_RXIDLE,
            PeripheralState::Rx => RADIO_STATE_RX,
            PeripheralState::RxDisable => RADIO_STATE_RXDISABLE,
            PeripheralState::TxRu => RADIO_STATE_TXRU,
            PeripheralState::TxIdle => RADIO_STATE_TXIDLE,
            PeripheralState::Tx => RADIO_STATE_TX,
            PeripheralState::TxDisable => RADIO_STATE_TXDISABLE,
        }
    }

    /// Whether this is one of the four transmitter states.
    pub fn is_tx_state(&self) -> (yes: bool)
        ensures
            yes == self.is_tx(),
            yes == tx_family(self.register_value()),
    {
        match *self {
            PeripheralState::TxRu
            | PeripheralState::TxIdle
            | PeripheralState::Tx
            | PeripheralState::TxDisable => true,
            _ => false,
        }
    }

    /// Whether this is one of the four receiver states.
    pub fn is_rx_state(&self) -> (yes: bool)
        ensures
            yes == self.is_rx(),
            yes == rx_family(self.register_value()),
    {
        match *self {
            PeripheralState::RxRu
            | PeripheralState::RxIdle
            | PeripheralState::Rx
            | PeripheralState::RxDisable => true,
            _ => false,
        }
    }

    /// Whether the state diagram has an edge from `self` to `next`.
    pub fn can_step_to(&self, next: PeripheralState) -> (yes: bool)
        ensures
            yes == self.steps_to(next),
    {
        match (*self, next) {
            (PeripheralState::RxDisable, PeripheralState::Disabled) => true,
            (PeripheralState::TxDisable, PeripheralState::Disabled) => true,
            (PeripheralState::TxRu, PeripheralState::TxDisable) => true,
            (PeripheralState::TxIdle, PeripheralState::TxDisable) => true,
            (PeripheralState::Tx, PeripheralState::TxDisable) => true,
            (PeripheralState::RxRu, PeripheralState::RxDisable) => true,
            (PeripheralState::RxIdle, PeripheralState::RxDisable) => true,
            (PeripheralState::Rx, PeripheralState::RxDisable) => true,
            (PeripheralState::Disabled, PeripheralState::TxRu) => true,
            (PeripheralState::TxIdle, PeripheralState::TxRu) => true,
            (PeripheralState::RxIdle, PeripheralState::TxRu) => true,
            (PeripheralState::Disabled, PeripheralState::RxRu) => true,
            (PeripheralState::TxIdle, PeripheralState::RxRu) => true,
            (PeripheralState::RxIdle, PeripheralState::RxRu) => true,
            (PeripheralState::TxRu, PeripheralState::TxIdle) => true,
            (PeripheralState::Tx, PeripheralState::TxIdle) => true,
            (PeripheralState::RxRu, PeripheralState::RxIdle) => true,
            (PeripheralState::Rx, PeripheralState::RxIdle) => true,
            (PeripheralState::TxIdle, PeripheralState::Tx) => true,
            (PeripheralState::RxIdle, PeripheralState::Rx) => true,
            _ => false,
        }
    }

    /// The first step from `self` towards `target`.
    pub fn hop_towards(&self, target: PeripheralState) -> (next: PeripheralState)
        ensures
            next == self.next_hop(target),
            *self != target ==> self.steps_to(next),
    {
        if *self == target {
            return target;
        }
        match *self {
            PeripheralState::Disabled => {
                if target.is_tx_state() {
                    PeripheralState::TxRu
                } else {
                    PeripheralState::RxRu
                }
            },
            PeripheralState::RxRu => {
                if target == PeripheralState::RxIdle || target == PeripheralState::Rx {
                    PeripheralState::RxIdle
                } else {
                    PeripheralState::RxDisable
                }
            },
            PeripheralState::RxIdle => {
                if target == PeripheralState::Rx || target == PeripheralState::RxRu {
                    target
                } else if target.is_tx_state() {
                    PeripheralState::TxRu
                } else {
                    PeripheralState::RxDisable
                }
            },
            PeripheralState::Rx => {
                if target == PeripheralState::RxDisable || target == PeripheralState::Disabled {
                    PeripheralState::RxDisable
                } else {
                    PeripheralState::RxIdle
                }
            },
            PeripheralState::RxDisable => PeripheralState::Disabled,
            PeripheralState::TxRu => {
                if target == PeripheralState::TxDisable || target == PeripheralState::Disabled {
                    PeripheralState::TxDisable
                } else {
                    PeripheralState::TxIdle
                }
            },
            PeripheralState::TxIdle => {
                if target == PeripheralState::Tx || target == PeripheralState::TxRu {
                    target
                } else if target.is_rx_state() {
                    PeripheralState::RxRu
                } else {
                    PeripheralState::TxDisable
                }
            },
            PeripheralState::Tx => {
                if target == PeripheralState::TxDisable || target == PeripheralState::Disabled {
                    PeripheralState::TxDisable
                } else {
                    PeripheralState::TxIdle
                }
            },
            PeripheralState::TxDisable => PeripheralState::Disabled,
        }
    }

    /// The chain of states that leads from `self` to `target`.
    pub fn route_to(&self, target: PeripheralState) -> (route: Vec<PeripheralState>)
        ensures
            route@ == self.route(target),
            is_chain(*self, route@),
            route@.len() <= LONGEST_ROUTE,
            *self == target <==> route@.len() == 0,
            *self != target ==> route@.last() == target,
    {
        let mut route: Vec<PeripheralState> = Vec::new();
        let mut at: PeripheralState = *self;
        let mut left: usize = LONGEST_ROUTE;
        assert(route@ + at.route_within(target, left as nat) =~= self.route(target));
        while at != target && left > 0
            invariant
                route@ + at.route_within(target, left as nat) == self.route(target),
            decreases left,
        {
            let next: PeripheralState = at.hop_towards(target);
            proof {
                lemma_route_step(route@, at, target, left as nat);
            }
            route.push(next);
            at = next;
            left = left - 1;
        }
        proof {
            lemma_route_end(route@, at, target, left as nat);
            lemma_route(*self, target);
        }
        route
    }

    /// Adopts the state that the STATE register shows.
    pub fn state_transition(self, word: u32) -> (next: PeripheralState)
        ensures
            next == self.observe(word),
            PeripheralState::decode(word) is Some ==> next.register_value() == word,
            PeripheralState::decode(word) is None ==> next == self,
    {
        match PeripheralState::from_register(word) {
            Some(state) => state,
            None => self,
        }
    }
}

/// Every state of `route` is reached from the one before it, the first from
/// `from`, along an edge of the state diagram.
pub open spec fn is_chain(from: PeripheralState, route: Seq<PeripheralState>) -> bool {
    forall|i: int|
        0 <= i < route.len() ==> (if i == 0 {
            from
        } else {
            route[i - 1]
        }).steps_to(#[trigger] route[i])
}

/// A route that is under way goes on with the next hop.
proof fn lemma_route_step(
    done: Seq<PeripheralState>,
    at: PeripheralState,
    target: PeripheralState,
    left: nat,
)
    requires
        at != target,
        left > 0,
    ensures
        done.push(at.next_hop(target)) + at.next_hop(target).route_within(
            target,
            (left - 1) as nat,
        ) == done + at.route_within(target, left),
{
    let next = at.next_hop(target);
    let rest = next.route_within(target, (left - 1) as nat);
    assert(at.route_within(target, left) == seq![next] + rest);
    assert(done.push(next) + rest =~= done + (seq![next] + rest));
}

/// A route has nothing left once it has arrived or used up its steps.
proof fn lemma_route_end(
    done: Seq<PeripheralState>,
    at: PeripheralState,
    target: PeripheralState,
    left: nat,
)
    requires
        at == target || left == 0,
    ensures
        done + at.route_within(target, left) == done,
{
    assert(at.route_within(target, left) =~= Seq::<PeripheralState>::empty());
    assert(done + Seq::<PeripheralState>::empty() =~= done);
}

/// From every state the route to every other state follows edges of the
/// state diagram, arrives, and takes at most five steps.
pub proof fn lemma_route(from: PeripheralState, target: PeripheralState)
    ensures
        is_chain(from, from.route(target)),
        from.route(target).len() <= LONGEST_ROUTE,
        from == target <==> from.route(target).len() == 0,
        from != target ==> from.route(target).last() == target,
{
    reveal_with_fuel(PeripheralState::route_within, 6);
    let route = from.route(target);
    let a = from.next_hop(target);
    let b = a.next_hop(target);
    let c = b.next_hop(target);
    let d = c.next_hop(target);
    let e = d.next_hop(target);
    if from != target {
        assert(from.steps_to(a));
        assert(route[0] == a);
        if a != target {
            assert(a.steps_to(b));
            assert(route[1] == b);
            if b != target {
                assert(b.steps_to(c));
                assert(route[2] == c);
                if c != target {
                    assert(c.steps_to(d));
                    assert(route[3] == d);
                    if d != target {
                        assert(d.steps_to(e));
                        assert(route[4] == e);
                        assert(e == target);
                    }
                }
            }
        }
    }
}

/// A STATE word names a state exactly when it is the word of that state.
pub proof fn lemma_state_words(state: PeripheralState, word: u32)
    ensures
        PeripheralState::decode(state.register_value()) == Some(state),
        PeripheralState::decode(word) == Some(state) <==> word == state.register_value(),
        tx_family(word) <==> (PeripheralState::decode(word) matches Some(s) && s.is_tx()),
        rx_family(word) <==> (PeripheralState::decode(word) matches Some(s) && s.is_rx()),
{
}

} // verus!
