//! bitvortex
//!
//! A library for processing and analysing data concurrently, asynchronously
//! and in parallel.
use std::rc::Rc;
use vstd::prelude::*;

pub mod data_bucket;

verus! {

/// A finite stream of values, handed out one at a time in order.
///
/// The view of a stream is the sequence of values it has yet to produce.
pub struct DataStream<T> {
    items: Vec<T>,
}

impl<T> View for DataStream<T> {
    type V = Seq<T>;

    closed spec fn view(&self) -> Seq<T> {
        self.items@
    }
}

impl<T> DataStream<T> {
    /// Build a stream that will produce the given values in order.
    pub fn new(items: Vec<T>) -> (s: Self)
        ensures
            s@ == items@,
    {
        DataStream { items }
    }

    /// How many values the stream has yet to produce.
    pub fn len(&self) -> (n: usize)
        ensures
            n == self@.len(),
    {
        self.items.len()
    }

    /// Produce the next value of the stream, or nothing once it is exhausted.
    pub fn next(&mut self) -> (r: Option<T>)
        ensures
            old(self)@.len() == 0 ==> r is None && final(self)@ == old(self)@,
            old(self)@.len() > 0 ==> r == Some(old(self)@[0]) && final(self)@ == old(self)@.drop_first(),
    {
        if self.items.len() == 0 {
            None
        } else {
            let v = self.items.remove(0);
            assert(self.items@ =~= old(self)@.drop_first());
            Some(v)
        }
    }
}

/// Source
/// A trait for a struct that can provide an output data stream.
///
/// Whether the produced stream reflects live state or a snapshot taken at
/// call time is each implementer's choice to document; `DataBlob` snapshots
/// its owned data, so calling `stream` twice without mutation in between
/// repeats the same output.
pub trait Source<T> {
    /// The sequence of values the component's output currently denotes.
    spec fn source_view(&self) -> Seq<T>;

    /// Produce a finite stream of the component's current output.
    fn stream(&self) -> (s: DataStream<T>)
        ensures
            s@ == self.source_view(),
    ;
}

/// Pipe
/// Trait for the main processing elements acting on data streams.
///
/// A pipe is a source of its output type that additionally accepts one
/// upstream source of its input type, forming a directed edge of a pipeline
/// graph. The upstream handle is shared: many downstream stages may hold the
/// same upstream source without taking exclusive ownership of it.
pub trait Pipe<InT, OutT, Upstream: Source<InT>>: Source<OutT> + Sized {
    /// The currently attached upstream source, if any.
    spec fn spec_input(&self) -> Option<Rc<Upstream>>;

    /// Connect a source to the pipe.
    ///
    /// When the attachment is refused, the pipe reports why and keeps any
    /// prior attachment unchanged; the concrete validity conditions are each
    /// implementer's responsibility.
    fn pipe(&mut self, input: Rc<Upstream>) -> (r: Result<(), &'static str>)
        ensures
            r is Ok ==> final(self).spec_input() == Some(input),
            r is Err ==> final(self).spec_input() == old(self).spec_input(),
    ;

    /// Sever the input connection to the pipe.
    ///
    /// Idempotent: detaching a pipe with nothing attached is a no-op and
    /// leaves the whole pipe as it was.
    fn unpipe(&mut self)
        ensures
            final(self).spec_input() is None,
            old(self).spec_input() is None ==> *final(self) == *old(self),
    ;

    /// Return a handle to the input source, or nothing if unattached.
    fn get_input(&self) -> (r: Option<Rc<Upstream>>)
        ensures
            r == self.spec_input(),
    ;
}

/// The simplest concrete pipe: a stage that relays its upstream's stream
/// unchanged.
///
/// It holds at most one shared handle to an upstream source, refuses to
/// overwrite an existing attachment, and, while unattached, produces an
/// empty stream.
pub struct RelayPipe<S> {
    input: Option<Rc<S>>,
}

impl<S> RelayPipe<S> {
    /// The currently attached upstream source, if any.
    pub closed spec fn attached(&self) -> Option<Rc<S>> {
        self.input
    }

    /// Construct a relay with no upstream attached.
    pub fn new() -> (p: Self)
        ensures
            p.attached() is None,
    {
        RelayPipe { input: None }
    }
}

impl<T, S: Source<T>> Source<T> for RelayPipe<S> {
    open spec fn source_view(&self) -> Seq<T> {
        match self.attached() {
            Some(up) => up.source_view(),
            None => Seq::empty(),
        }
    }

    fn stream(&self) -> (s: DataStream<T>) {
        match &self.input {
            Some(rc) => (&**rc).stream(),
            None => DataStream::new(Vec::new()),
        }
    }
}

impl<T, S: Source<T>> Pipe<T, T, S> for RelayPipe<S> {
    open spec fn spec_input(&self) -> Option<Rc<S>> {
        self.attached()
    }

    fn pipe(&mut self, input: Rc<S>) -> (r: Result<(), &'static str>)
        ensures
            old(self).attached() is None <==> r is Ok,
    {
        if self.input.is_some() {
            Err("pipe input is already attached")
        } else {
            self.input = Some(input);
            Ok(())
        }
    }

    fn unpipe(&mut self) {
        self.input = None;
    }

    fn get_input(&self) -> (r: Option<Rc<S>>) {
        match &self.input {
            Some(rc) => Some(Rc::clone(rc)),
            None => None,
        }
    }
}

} // verus!
