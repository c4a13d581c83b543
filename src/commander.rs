use vstd::prelude::*;

verus! {

/// The mathematical reading of a fallible result: the error text as a
/// sequence of characters.
pub open spec fn result_view<T>(r: Result<T, String>) -> Result<T, Seq<char>> {
    match r {
        Ok(v) => Ok(v),
        Err(e) => Err(e@),
    }
}

/// A command type that can build itself from a manifest, given read-only
/// access to a bridge and a strategy.
pub trait Command<B, S>: Sized {
    /// What building from `manifest` yields, given these collaborators.
    spec fn outcome(bridge: B, strategy: S, manifest: Seq<char>) -> Result<Self, Seq<char>>;

    fn execute(bridge: &B, strategy: &S, manifest: &str) -> (r: Result<Self, String>)
        ensures
            result_view(r) == Self::outcome(*bridge, *strategy, manifest@),
    ;
}

/// Something that owns a bridge and a strategy, and dispatches a manifest to
/// the command type that the caller names.
pub trait Commander<B, S>: Sized {
    /// The bridge held.
    spec fn bridge_of(&self) -> B;

    /// The strategy held.
    spec fn strategy_of(&self) -> S;

    /// Builds the command `T` from `manifest`, with this commander's
    /// collaborators, and hands its result back unchanged.
    fn execute<T: Command<B, S>>(&self, manifest: &str) -> (r: Result<T, String>)
        ensures
            result_view(r) == T::outcome(self.bridge_of(), self.strategy_of(), manifest@),
    {
        T::execute(self.get_bridge(), self.get_strategy(), manifest)
    }

    /// Takes ownership of both collaborators.
    fn new(bridge: B, strategy: S) -> (r: Self)
        ensures
            r.bridge_of() == bridge,
            r.strategy_of() == strategy,
    ;

    /// A shared reference to the bridge held.
    fn get_bridge(&self) -> (r: &B)
        ensures
            *r == self.bridge_of(),
    ;

    /// A shared reference to the strategy held.
    fn get_strategy(&self) -> (r: &S)
        ensures
            *r == self.strategy_of(),
    ;
}

/// A client owning one bridge and one strategy. Its fields are private: once
/// built it hands out shared references only.
pub struct Client<B, S> {
    bridge: B,
    strategy: S,
}

impl<B, S> Commander<B, S> for Client<B, S> {
    closed spec fn bridge_of(&self) -> B {
        self.bridge
    }

    closed spec fn strategy_of(&self) -> S {
        self.strategy
    }

    fn new(bridge: B, strategy: S) -> (r: Self) {
        Client { bridge, strategy }
    }

    fn get_bridge(&self) -> (r: &B) {
        &self.bridge
    }

    fn get_strategy(&self) -> (r: &S) {
        &self.strategy
    }
}


/// The slots of a builder: each collaborator, once it has been set.
pub struct BuilderSlots<B, S> {
    pub bridge: Option<B>,
    pub strategy: Option<S>,
}

impl<B, S> BuilderSlots<B, S> {
    /// No collaborator set.
    pub open spec fn empty() -> Self {
        BuilderSlots { bridge: None, strategy: None }
    }

    /// The bridge slot replaced by `bridge`, whatever it held.
    pub open spec fn with_bridge(self, bridge: B) -> Self {
        BuilderSlots { bridge: Some(bridge), ..self }
    }

    /// The strategy slot replaced by `strategy`, whatever it held.
    pub open spec fn with_strategy(self, strategy: S) -> Self {
        BuilderSlots { strategy: Some(strategy), ..self }
    }

    /// Both collaborators are set, so a client can be built.
    pub open spec fn is_ready(self) -> bool {
        self.bridge is Some && self.strategy is Some
    }
}

/// Assembles a `Client` from collaborators that become available one at a
/// time.
pub struct ClientBuilder<B, S> {
    client: Client<Option<B>, Option<S>>,
}

impl<B, S> View for ClientBuilder<B, S> {
    type V = BuilderSlots<B, S>;

    closed spec fn view(&self) -> BuilderSlots<B, S> {
        BuilderSlots { bridge: self.client.bridge, strategy: self.client.strategy }
    }
}

impl<B, S> ClientBuilder<B, S> {
    /// A builder with neither collaborator set.
    pub fn new() -> (r: Self)
        ensures
            r@ == BuilderSlots::<B, S>::empty(),
    {
        ClientBuilder { client: Client { bridge: None, strategy: None } }
    }

    /// Sets the bridge, replacing any bridge set before.
    pub fn set_bridge(&mut self, bridge: B) -> (r: &mut ClientBuilder<B, S>)
        ensures
            r@ == old(self)@.with_bridge(bridge),
            *final(self) == *final(r),
    {
        self.client.bridge = Some(bridge);
        self
    }

    /// Sets the strategy, replacing any strategy set before.
    pub fn set_strategy(&mut self, strategy: S) -> (r: &mut ClientBuilder<B, S>)
        ensures
            r@ == old(self)@.with_strategy(strategy),
            *final(self) == *final(r),
    {
        self.client.strategy = Some(strategy);
        self
    }

    /// Moves both collaborators out into a new client, leaving the builder
    /// empty. Building from a builder that is not ready is a caller error.
    pub fn build(&mut self) -> (r: Client<B, S>)
        requires
            old(self)@.is_ready(),
        ensures
            r.bridge_of() == old(self)@.bridge->Some_0,
            r.strategy_of() == old(self)@.strategy->Some_0,
            final(self)@ == BuilderSlots::<B, S>::empty(),
    {
        let bridge = self.client.bridge.take().unwrap();
        let strategy = self.client.strategy.take().unwrap();
        Client::new(bridge, strategy)
    }
}


/// Dispatch keeps no hidden state: any two results of `execute` for one
/// manifest on one unchanged commander are equal.
pub proof fn lemma_execute_repeatable<B, S, C: Commander<B, S>, T: Command<B, S>>(
    client: C,
    manifest: Seq<char>,
    first: Result<T, String>,
    second: Result<T, String>,
)
    requires
        result_view(first) == T::outcome(client.bridge_of(), client.strategy_of(), manifest),
        result_view(second) == T::outcome(client.bridge_of(), client.strategy_of(), manifest),
    ensures
        result_view(first) == result_view(second),
{
}

/// An empty builder given a strategy and then a bridge is ready, and holds
/// exactly those two values, which `build` then moves into the client.
pub proof fn lemma_set_both_then_ready<B, S>(strategy: S, bridge: B)
    ensures
        ({
            let slots = BuilderSlots::<B, S>::empty().with_strategy(strategy).with_bridge(bridge);
            &&& slots.is_ready()
            &&& slots.bridge == Some(bridge)
            &&& slots.strategy == Some(strategy)
        }),
{
}

/// A builder on which no setter was called is not ready, so `build` may not
/// be called on it; neither may it be called again right after a build,
/// which leaves the builder empty.
pub proof fn lemma_empty_not_ready<B, S>()
    ensures
        !BuilderSlots::<B, S>::empty().is_ready(),
{
}

} // verus!
