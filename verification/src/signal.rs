use vstd::prelude::*;

verus! {

/// A reference to a function that the caller owns: the registry stores the
/// reference, the caller keeps the function and whatever it captured.
#[derive(Clone, Copy, Debug, PartialEq, Eq, Structural)]
pub struct FunctionRef(pub u64);

/// What an emission of `name` invokes when `signals` are the connected
/// callbacks: those connected under the name, oldest first, and nothing
/// when the name is unknown.
pub open spec fn callbacks_in(signals: Map<Seq<char>, Seq<FunctionRef>>, name: Seq<char>) -> Seq<
    FunctionRef,
> {
    if signals.dom().contains(name) {
        signals[name]
    } else {
        Seq::empty()
    }
}

/// `signals` after `callback` has been connected under `name`.
pub open spec fn connect_in(
    signals: Map<Seq<char>, Seq<FunctionRef>>,
    name: Seq<char>,
    callback: FunctionRef,
) -> Map<Seq<char>, Seq<FunctionRef>> {
    signals.insert(name, callbacks_in(signals, name).push(callback))
}

/// `signals` after `name` has been disconnected.
pub open spec fn disconnect_in(signals: Map<Seq<char>, Seq<FunctionRef>>, name: Seq<char>) -> Map<
    Seq<char>,
    Seq<FunctionRef>,
> {
    signals.remove(name)
}

/// Callbacks fire in the order of their connection: three callbacks
/// connected one after the other under one name are invoked in that
/// order, after those that were connected before them.
pub proof fn lemma_emission_order(
    signals: Map<Seq<char>, Seq<FunctionRef>>,
    name: Seq<char>,
    first: FunctionRef,
    second: FunctionRef,
    third: FunctionRef,
)
    ensures
        callbacks_in(
            connect_in(connect_in(connect_in(signals, name, first), name, second), name, third),
            name,
        ) == callbacks_in(signals, name).push(first).push(second).push(third),
{
}

/// Disconnecting a name clears it: the next emission of the name invokes
/// nothing, however many callbacks had been connected under it.
pub proof fn lemma_disconnect_clears(signals: Map<Seq<char>, Seq<FunctionRef>>, name: Seq<char>)
    ensures
        callbacks_in(disconnect_in(signals, name), name) == Seq::<FunctionRef>::empty(),
        forall|other: Seq<char>|
            other != name ==> callbacks_in(disconnect_in(signals, name), other) == callbacks_in(
                signals,
                other,
            ),
{
}

/// The signals of an object are its own. Where `world` holds the signals
/// of the objects of a program, connecting `callback` under `name` on the
/// object `one` makes an emission of that name on it invoke what it
/// invoked before and then `callback`, and leaves every emission on
/// another object, `other`, as it was.
pub proof fn lemma_signals_isolated(
    world: Seq<Map<Seq<char>, Seq<FunctionRef>>>,
    one: int,
    other: int,
    name: Seq<char>,
    callback: FunctionRef,
)
    requires
        0 <= one < world.len(),
        0 <= other < world.len(),
        one != other,
    ensures
        ({
            let after = world.update(one, connect_in(world[one], name, callback));
            &&& callbacks_in(after[one], name) == callbacks_in(world[one], name).push(callback)
            &&& after[other] == world[other]
            &&& forall|any: Seq<char>|
                callbacks_in(after[other], any) == callbacks_in(world[other], any)
        }),
{
}

/// The callbacks connected under one signal name, in connection order.
struct Channel {
    name: String,
    callbacks: Vec<FunctionRef>,
}

/// The signals of one object: for each name the callbacks connected under
/// it, in the order in which they were connected.
pub struct SignalRegistry {
    channels: Vec<Channel>,
}

impl SignalRegistry {
    /// No two channels share a name.
    pub closed spec fn wf(&self) -> bool {
        forall|i: int, j: int|
            0 <= i < j < self.channels@.len() ==> self.channels@[i].name@
                != self.channels@[j].name@
    }

    /// The callbacks by signal name. A name with no channel is absent.
    pub closed spec fn view(&self) -> Map<Seq<char>, Seq<FunctionRef>> {
        Map::new(
            |name: Seq<char>|
                exists|i: int|
                    0 <= i < self.channels@.len() && self.channels@[i].name@ == name,
            |name: Seq<char>|
                self.channels@[choose|i: int|
                    0 <= i < self.channels@.len() && self.channels@[i].name@ == name].callbacks@,
        )
    }

    /// What an emission of `name` invokes.
    pub open spec fn callbacks(&self, name: Seq<char>) -> Seq<FunctionRef> {
        callbacks_in(self@, name)
    }

    /// A registry with nothing connected.
    pub fn new() -> (registry: SignalRegistry)
        ensures
            registry.wf(),
            registry@ == Map::<Seq<char>, Seq<FunctionRef>>::empty(),
    {
        let registry = SignalRegistry { channels: Vec::new() };
        registry
    }

    /// Where the callbacks of `name` are kept.
    fn position(&self, name: &str) -> (found: Option<usize>)
        requires
            self.wf(),
        ensures
            match found {
                Some(i) => i < self.channels@.len() && self.channels@[i as int].name@ == name@,
                None => forall|i: int|
                    0 <= i < self.channels@.len() ==> self.channels@[i].name@ != name@,
            },
    {
        let wanted = name.to_owned();
        let mut i: usize = 0;
        while i < self.channels.len()
            invariant
                i <= self.channels@.len(),
                wanted@ == name@,
                forall|j: int| 0 <= j < i ==> self.channels@[j].name@ != name@,
            decreases self.channels@.len() - i,
        {
            if self.channels[i].name == wanted {
                return Some(i);
            }
            i += 1;
        }
        None
    }

    /// The channel at `i` is the one that the view shows under its name.
    proof fn lemma_channel_in_view(&self, i: int)
        requires
            self.wf(),
            0 <= i < self.channels@.len(),
        ensures
            self@.dom().contains(self.channels@[i].name@),
            self@[self.channels@[i].name@] == self.channels@[i].callbacks@,
    {
        let name = self.channels@[i].name@;
        let j = choose|j: int| 0 <= j < self.channels@.len() && self.channels@[j].name@ == name;
        assert(j == i);
    }

    /// Appends `callback` to the callbacks of `name`, after those already
    /// connected. The same reference may be connected any number of times.
    pub fn connect(&mut self, name: &str, callback: FunctionRef)
        requires
            old(self).wf(),
        ensures
            final(self).wf(),
            final(self)@ == connect_in(old(self)@, name@, callback),
    {
        let ghost before = *self;
        let ghost target = before@.insert(name@, before.callbacks(name@).push(callback));
        match self.position(name) {
            Some(i) => {
                self.channels[i].callbacks.push(callback);
                proof {
                    before.lemma_channel_in_view(i as int);
                }
            },
            None => {
                let mut callbacks: Vec<FunctionRef> = Vec::new();
                callbacks.push(callback);
                self.channels.push(Channel { name: name.to_owned(), callbacks });
                proof {
                    assert(self.channels@[self.channels@.len() - 1].callbacks@ == Seq::<
                        FunctionRef,
                    >::empty().push(callback));
                }
            },
        }
        assert forall|n: Seq<char>| target.dom().contains(n) implies #[trigger] self@.dom().contains(
            n,
        ) && self@[n] == target[n] by {
            if n == name@ {
                let w = choose|j: int|
                    0 <= j < self.channels@.len() && self.channels@[j].name@ == name@;
                self.lemma_channel_in_view(w);
            } else {
                let j = choose|j: int|
                    0 <= j < before.channels@.len() && before.channels@[j].name@ == n;
                before.lemma_channel_in_view(j);
                self.lemma_channel_in_view(j);
            }
        }
        assert forall|n: Seq<char>| self@.dom().contains(n) implies target.dom().contains(n) by {
            let j = choose|j: int| 0 <= j < self.channels@.len() && self.channels@[j].name@ == n;
            if n != name@ {
                before.lemma_channel_in_view(j);
            }
        }
    }

    /// Removes every callback connected under `name`. Other names keep
    /// theirs; a name with no callbacks is left as it is.
    pub fn disconnect(&mut self, name: &str)
        requires
            old(self).wf(),
        ensures
            final(self).wf(),
            final(self)@ == disconnect_in(old(self)@, name@),
    {
        let ghost before = *self;
        if let Some(i) = self.position(name) {
            self.channels.remove(i);
            proof {
                let k = i as int;
                assert forall|n: Seq<char>| self@.dom().contains(n) implies n != name@
                    && before@.dom().contains(n) && before@[n] == self@[n] by {
                    let j = choose|j: int|
                        0 <= j < self.channels@.len() && self.channels@[j].name@ == n;
                    self.lemma_channel_in_view(j);
                    if j < k {
                        before.lemma_channel_in_view(j);
                    } else {
                        before.lemma_channel_in_view(j + 1);
                    }
                }
                assert forall|n: Seq<char>|
                    n != name@ && before@.dom().contains(n) implies self@.dom().contains(n) by {
                    let j = choose|j: int|
                        0 <= j < before.channels@.len() && before.channels@[j].name@ == n;
                    if j < k {
                        assert(self.channels@[j].name@ == n);
                    } else {
                        assert(self.channels@[j - 1].name@ == n);
                    }
                }
            }
        }
    }

    /// The callbacks that an emission of `name` is to invoke, oldest
    /// first. The list is a copy taken now: callbacks that connect or
    /// disconnect while it is being worked through do not change it.
    pub fn snapshot(&self, name: &str) -> (invoked: Vec<FunctionRef>)
        requires
            self.wf(),
        ensures
            invoked@ == self.callbacks(name@),
    {
        let mut invoked: Vec<FunctionRef> = Vec::new();
        if let Some(i) = self.position(name) {
            proof {
                self.lemma_channel_in_view(i as int);
            }
            let connected = &self.channels[i].callbacks;
            let mut k: usize = 0;
            while k < connected.len()
                invariant
                    k <= connected@.len(),
                    invoked@ == connected@.subrange(0, k as int),
                decreases connected@.len() - k,
            {
                invoked.push(connected[k]);
                k += 1;
            }
        }
        invoked
    }
}

} // verus!
