//! Operations built from functions: mapping, awaiting and passing through.
use vstd::prelude::*;

use std::marker::PhantomData;

verus! {

/// An operation that applies a function to its input.
pub struct MapOp<F, Input> {
    f: F,
    _in: PhantomData<Input>,
}

impl<F, Input> MapOp<F, Input> {
    /// The function that is applied.
    pub closed spec fn spec_function(&self) -> F {
        self.f
    }

    /// The operation that applies `f`.
    pub fn new(f: F) -> (op: Self)
        ensures
            op.spec_function() == f,
    {
        MapOp { f, _in: PhantomData }
    }
}

impl<F, Input, Output> MapOp<F, Input> where F: Fn(Input) -> Output {
    /// Applies the function to `input`.
    pub fn call(&self, input: Input) -> (output: Output)
        requires
            call_requires(self.spec_function(), (input,)),
        ensures
            call_ensures(self.spec_function(), (input,), output),
    {
        (self.f)(input)
    }
}

/// Creates an operation that applies `f` to its input.
pub fn map<F, Input>(f: F) -> (op: MapOp<F, Input>)
    ensures
        op.spec_function() == f,
{
    MapOp::new(f)
}

/// An operation that applies an asynchronous function to its input and awaits the result.
pub struct Then<F, Input> {
    f: F,
    _in: PhantomData<Input>,
}

impl<F, Input> Then<F, Input> {
    /// The asynchronous function that is applied.
    pub closed spec fn spec_function(&self) -> F {
        self.f
    }

    /// The operation that applies `f` and awaits what it returns.
    pub fn new(f: F) -> (op: Self)
        ensures
            op.spec_function() == f,
    {
        Then { f, _in: PhantomData }
    }

    /// The asynchronous function that is applied.
    pub fn function(&self) -> (r: &F)
        ensures
            *r == self.spec_function(),
    {
        &self.f
    }
}

/// Creates an operation that applies the asynchronous function `f` to its input.
pub fn then<F, Input>(f: F) -> (op: Then<F, Input>)
    ensures
        op.spec_function() == f,
{
    Then::new(f)
}

/// An operation that returns its input unchanged.
pub struct Passthrough<T> {
    _t: PhantomData<T>,
}

impl<T> Passthrough<T> {
    /// The operation that returns its input.
    pub fn new() -> (op: Self) {
        Passthrough { _t: PhantomData }
    }

    /// Returns `input` unchanged.
    pub fn call(&self, input: T) -> (output: T)
        ensures
            output == input,
    {
        input
    }
}

/// Creates an operation that returns its input unchanged.
pub fn passthrough<T>() -> (op: Passthrough<T>) {
    Passthrough::new()
}

/// A streaming operation that applies a function to each item of its input.
pub struct StreamingMap<F, Input> {
    f: F,
    _in: PhantomData<Input>,
}

impl<F, Input> StreamingMap<F, Input> {
    /// The function that is applied.
    pub closed spec fn spec_function(&self) -> F {
        self.f
    }

    /// The streaming operation that applies `f`.
    pub fn new(f: F) -> (op: Self)
        ensures
            op.spec_function() == f,
    {
        StreamingMap { f, _in: PhantomData }
    }
}

impl<F, Input, Output> StreamingMap<F, Input> where F: Fn(Input) -> Output {
    /// Applies the function to one item.
    pub fn call(&self, input: Input) -> (output: Output)
        requires
            call_requires(self.spec_function(), (input,)),
        ensures
            call_ensures(self.spec_function(), (input,), output),
    {
        (self.f)(input)
    }
}

/// A streaming operation that applies an asynchronous function to each item of its
/// input and awaits the result.
pub struct StreamingThen<F, Input> {
    f: F,
    _in: PhantomData<Input>,
}

impl<F, Input> StreamingThen<F, Input> {
    /// The asynchronous function that is applied.
    pub closed spec fn spec_function(&self) -> F {
        self.f
    }

    /// The streaming operation that applies `f` and awaits what it returns.
    pub fn new(f: F) -> (op: Self)
        ensures
            op.spec_function() == f,
    {
        StreamingThen { f, _in: PhantomData }
    }

    /// The asynchronous function that is applied.
    pub fn function(&self) -> (r: &F)
        ensures
            *r == self.spec_function(),
    {
        &self.f
    }
}

/// A streaming operation that passes each item of its input through unchanged.
pub struct StreamingPassthrough<T> {
    _t: PhantomData<T>,
}

impl<T> StreamingPassthrough<T> {
    /// The streaming operation that passes items through.
    pub fn new() -> (op: Self) {
        StreamingPassthrough { _t: PhantomData }
    }

    /// Returns the item `input` unchanged.
    pub fn call(&self, input: T) -> (output: T)
        ensures
            output == input,
    {
        input
    }
}

} // verus!
