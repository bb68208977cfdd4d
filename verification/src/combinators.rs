//! Combinators: widgets made of other widgets.

use std::marker::PhantomData;
use vstd::pervasive::cloned;
use vstd::prelude::*;

use crate::display::{TextDisplay, TextOp, Writes};
use crate::text::DisplayText;
use crate::widgets::{added, Label, Widget, WidgetEvent};

verus! {

/// One of two values.
pub enum Either<A, B> {
    A(A),
    B(B),
}

impl<A: Clone, B: Clone> Clone for Either<A, B> {
    fn clone(&self) -> (r: Self)
        ensures
            match (*self, r) {
                (Either::A(a), Either::A(copy)) => cloned(a, copy),
                (Either::B(b), Either::B(copy)) => cloned(b, copy),
                _ => false,
            },
    {
        match self {
            Either::A(a) => Either::A(a.clone()),
            Either::B(b) => Either::B(b.clone()),
        }
    }
}

impl<A: Copy, B: Copy> Copy for Either<A, B> {

}

/// Data that is one of two variants.
pub trait IntoEither {
    /// What the first variant holds.
    type A;

    /// What the second variant holds.
    type B;

    /// The variant that the data is.
    spec fn either(self) -> Either<Self::A, Self::B>;

    /// The variant that the data is.
    fn into_either(self) -> (r: Either<Self::A, Self::B>)
        ensures
            r == self.either(),
    ;
}

impl<A, B> IntoEither for Either<A, B> {
    type A = A;

    type B = B;

    open spec fn either(self) -> Either<A, B> {
        self
    }

    fn into_either(self) -> (r: Either<A, B>) {
        self
    }
}

impl<T> IntoEither for Option<T> {
    type A = T;

    type B = ();

    open spec fn either(self) -> Either<T, ()> {
        match self {
            Some(some) => Either::A(some),
            None => Either::B(()),
        }
    }

    fn into_either(self) -> (r: Either<T, ()>) {
        match self {
            Some(some) => Either::A(some),
            None => Either::B(()),
        }
    }
}

/// Two widgets of which the one is in use whose variant the data is.
pub struct EitherWidget<T, A, B> {
    pub a: A,
    pub b: B,
    pub _data: PhantomData<T>,
}

impl<T, A, B> EitherWidget<T, A, B> where
    T: Clone + IntoEither,
    A: Widget<Data = <T as IntoEither>::A>,
    B: Widget<Data = <T as IntoEither>::B>,
 {
    /// A widget that shows the first variant with `a` and the second with `b`.
    pub fn new(a: A, b: B) -> (r: Self)
        ensures
            r == (EitherWidget { a, b, _data: PhantomData::<T> }),
    {
        EitherWidget { a, b, _data: PhantomData }
    }

    /// What `event` makes of the widget when the data is `variant`.
    pub open spec fn event_as(
        &self,
        event: &WidgetEvent,
        variant: Either<<T as IntoEither>::A, <T as IntoEither>::B>,
        after: &Self,
    ) -> bool {
        match variant {
            Either::A(data) => self.a.event_spec(event, &data, &after.a) && after.b == self.b,
            Either::B(data) => self.b.event_spec(event, &data, &after.b) && after.a == self.a,
        }
    }

    /// What `update` makes of the widget when the data goes from
    /// `old_variant` to `variant`: the widget in use is updated where the
    /// variant stays, and the widget that comes into use is forced to
    /// repaint where the variant changes. The other widget stays as it is.
    pub open spec fn update_as(
        &self,
        old_variant: Either<<T as IntoEither>::A, <T as IntoEither>::B>,
        variant: Either<<T as IntoEither>::A, <T as IntoEither>::B>,
        after: &Self,
    ) -> bool {
        match (old_variant, variant) {
            (Either::A(old_data), Either::A(data)) => self.a.update_spec(
                &old_data,
                &data,
                &after.a,
            ) && after.b == self.b,
            (Either::B(old_data), Either::B(data)) => self.b.update_spec(
                &old_data,
                &data,
                &after.b,
            ) && after.a == self.a,
            (Either::B(_), Either::A(data)) => self.a.force_repaint_spec(&data, &after.a)
                && after.b == self.b,
            (Either::A(_), Either::B(data)) => self.b.force_repaint_spec(&data, &after.b)
                && after.a == self.a,
        }
    }

    /// What `force_repaint` makes of the widget when the data is `variant`.
    pub open spec fn force_repaint_as(
        &self,
        variant: Either<<T as IntoEither>::A, <T as IntoEither>::B>,
        after: &Self,
    ) -> bool {
        match variant {
            Either::A(data) => self.a.force_repaint_spec(&data, &after.a) && after.b == self.b,
            Either::B(data) => self.b.force_repaint_spec(&data, &after.b) && after.a == self.a,
        }
    }

    /// What `paint` makes of the widget and asks of the display when the
    /// data is `variant`.
    pub open spec fn paint_as(
        &self,
        variant: Either<<T as IntoEither>::A, <T as IntoEither>::B>,
        after: &Self,
        out: Seq<TextOp>,
    ) -> bool {
        match variant {
            Either::A(data) => self.a.paint_spec(&data, &after.a, out) && after.b == self.b,
            Either::B(data) => self.b.paint_spec(&data, &after.b, out) && after.a == self.a,
        }
    }
}

impl<T, A, B> Widget for EitherWidget<T, A, B> where
    T: Clone + IntoEither,
    A: Widget<Data = <T as IntoEither>::A>,
    B: Widget<Data = <T as IntoEither>::B>,
 {
    type Data = T;

    open spec fn event_spec(&self, event: &WidgetEvent, data: &T, after: &Self) -> bool {
        exists|copy: T| cloned(*data, copy) && #[trigger] self.event_as(event, copy.either(), after)
    }

    open spec fn update_spec(&self, old_data: &T, data: &T, after: &Self) -> bool {
        exists|old_copy: T, copy: T|
            cloned(*old_data, old_copy) && cloned(*data, copy) && #[trigger] self.update_as(
                old_copy.either(),
                copy.either(),
                after,
            )
    }

    open spec fn force_repaint_spec(&self, data: &T, after: &Self) -> bool {
        exists|copy: T|
            cloned(*data, copy) && #[trigger] self.force_repaint_as(copy.either(), after)
    }

    open spec fn paint_spec(&self, data: &T, after: &Self, out: Writes) -> bool {
        exists|copy: T| cloned(*data, copy) && #[trigger] self.paint_as(copy.either(), after, out)
    }

    fn event(&mut self, event: &WidgetEvent, data: &T) {
        let copy = data.clone();
        let ghost variant = copy.either();
        match copy.into_either() {
            Either::A(data) => self.a.event(event, &data),
            Either::B(data) => self.b.event(event, &data),
        }
        assert(old(self).event_as(event, variant, self));
    }

    fn update(&mut self, old_data: &T, data: &T) {
        let old_copy = old_data.clone();
        let copy = data.clone();
        let ghost old_variant = old_copy.either();
        let ghost variant = copy.either();
        match (old_copy.into_either(), copy.into_either()) {
            (Either::A(old_data), Either::A(data)) => self.a.update(&old_data, &data),
            (Either::B(old_data), Either::B(data)) => self.b.update(&old_data, &data),
            (Either::B(_), Either::A(data)) => self.a.force_repaint(&data),
            (Either::A(_), Either::B(data)) => self.b.force_repaint(&data),
        }
        assert(old(self).update_as(old_variant, variant, self));
    }

    fn force_repaint(&mut self, data: &T) {
        let copy = data.clone();
        let ghost variant = copy.either();
        match copy.into_either() {
            Either::A(data) => self.a.force_repaint(&data),
            Either::B(data) => self.b.force_repaint(&data),
        }
        assert(old(self).force_repaint_as(variant, self));
    }

    fn paint<D: TextDisplay>(&mut self, data: &T, display: &mut D) {
        let copy = data.clone();
        let ghost variant = copy.either();
        match copy.into_either() {
            Either::A(data) => self.a.paint(&data, display),
            Either::B(data) => self.b.paint(&data, display),
        }
        assert(old(self).paint_as(variant, self, added(old(display), display)));
    }
}

/// State of its own that a widget keeps beside the data it is given, and
/// the data that is made of both for the widget inside.
pub trait Scope {
    /// The data that comes from outside.
    type In;

    /// The data that goes to the widget inside.
    type Out;

    /// What `event` may make of the scope.
    spec fn event_spec(&self, event: &WidgetEvent, data: &Self::In, after: &Self) -> bool;

    /// What `update` may make of the scope.
    spec fn update_spec(&self, old_data: &Self::In, data: &Self::In, after: &Self) -> bool;

    /// What `reset` may make of the scope.
    spec fn reset_spec(&self, after: &Self) -> bool;

    /// What `data` may return.
    spec fn data_spec(&self, data: &Self::In, out: Self::Out) -> bool;

    /// Takes an event into the state.
    fn event(&mut self, event: &WidgetEvent, data: &Self::In)
        ensures
            old(self).event_spec(event, data, final(self)),
    ;

    /// Takes a change of the outside data into the state.
    fn update(&mut self, old_data: &Self::In, data: &Self::In)
        ensures
            old(self).update_spec(old_data, data, final(self)),
    ;

    /// Puts the state back to what it was at first.
    fn reset(&mut self)
        ensures
            old(self).reset_spec(final(self)),
    ;

    /// The data for the widget inside.
    fn data(&self, data: &Self::In) -> (out: Self::Out)
        ensures
            self.data_spec(data, out),
    ;
}

/// A scope made of a state and three functions: one that takes an event
/// into the state, one that takes a change of the data into it, and one that
/// makes the data for the widget inside.
#[verifier::reject_recursive_types(Data)]
#[verifier::reject_recursive_types(In)]
#[verifier::reject_recursive_types(Out)]
pub struct FunctionScope<Data: Clone, In, Out, E, U, D> where
    E: Fn(&Data, &WidgetEvent, &In) -> Data,
    U: Fn(&Data, &In, &In) -> Data,
    D: Fn(&Data, &In) -> Out,
 {
    initial_data: Data,
    data: Data,
    handle_event: E,
    handle_update: U,
    produce_data: D,
    _data: PhantomData<(In, Out)>,
}

/// A function scope as plain values.
pub struct FunctionScopeView<Data, E, U, D> {
    /// The state that the scope goes back to at a reset.
    pub initial_data: Data,
    /// The state as it is.
    pub data: Data,
    /// What takes an event into the state.
    pub handle_event: E,
    /// What takes a change of the data into the state.
    pub handle_update: U,
    /// What makes the data for the widget inside.
    pub produce_data: D,
}

impl<Data: Clone, In, Out, E, U, D> View for FunctionScope<Data, In, Out, E, U, D> where
    E: Fn(&Data, &WidgetEvent, &In) -> Data,
    U: Fn(&Data, &In, &In) -> Data,
    D: Fn(&Data, &In) -> Out,
 {
    type V = FunctionScopeView<Data, E, U, D>;

    closed spec fn view(&self) -> FunctionScopeView<Data, E, U, D> {
        FunctionScopeView {
            initial_data: self.initial_data,
            data: self.data,
            handle_event: self.handle_event,
            handle_update: self.handle_update,
            produce_data: self.produce_data,
        }
    }
}

impl<Data: Clone, In, Out, E, U, D> FunctionScope<Data, In, Out, E, U, D> where
    E: Fn(&Data, &WidgetEvent, &In) -> Data,
    U: Fn(&Data, &In, &In) -> Data,
    D: Fn(&Data, &In) -> Out,
 {
    /// Whether the three functions may be called on every state and data.
    pub open spec fn total(handle_event: E, handle_update: U, produce_data: D) -> bool {
        &&& forall|state: &Data, event: &WidgetEvent, data: &In|
            call_requires(handle_event, (state, event, data))
        &&& forall|state: &Data, old_data: &In, data: &In|
            call_requires(handle_update, (state, old_data, data))
        &&& forall|state: &Data, data: &In| call_requires(produce_data, (state, data))
    }

    #[verifier::type_invariant]
    spec fn callable(&self) -> bool {
        Self::total(self.handle_event, self.handle_update, self.produce_data)
    }

    /// A scope that starts, and starts again after each reset, from `data`.
    pub fn new(data: Data, handle_event: E, handle_update: U, produce_data: D) -> (r: Self)
        requires
            Self::total(handle_event, handle_update, produce_data),
        ensures
            cloned(data, r@.initial_data),
            r@.data == data,
            r@.handle_event == handle_event,
            r@.handle_update == handle_update,
            r@.produce_data == produce_data,
    {
        FunctionScope {
            initial_data: data.clone(),
            data,
            handle_event,
            handle_update,
            produce_data,
            _data: PhantomData,
        }
    }
}

impl<Data: Clone, In, Out, E, U, D> Scope for FunctionScope<Data, In, Out, E, U, D> where
    E: Fn(&Data, &WidgetEvent, &In) -> Data,
    U: Fn(&Data, &In, &In) -> Data,
    D: Fn(&Data, &In) -> Out,
 {
    type In = In;

    type Out = Out;

    open spec fn event_spec(&self, event: &WidgetEvent, data: &In, after: &Self) -> bool {
        &&& after@ == (FunctionScopeView { data: after@.data, ..self@ })
        &&& call_ensures(self@.handle_event, (&self@.data, event, data), after@.data)
    }

    open spec fn update_spec(&self, old_data: &In, data: &In, after: &Self) -> bool {
        &&& after@ == (FunctionScopeView { data: after@.data, ..self@ })
        &&& call_ensures(self@.handle_update, (&self@.data, old_data, data), after@.data)
    }

    open spec fn reset_spec(&self, after: &Self) -> bool {
        &&& after@ == (FunctionScopeView { data: after@.data, ..self@ })
        &&& cloned(self@.initial_data, after@.data)
    }

    open spec fn data_spec(&self, data: &In, out: Out) -> bool {
        call_ensures(self@.produce_data, (&self@.data, data), out)
    }

    fn event(&mut self, event: &WidgetEvent, data: &In) {
        proof {
            use_type_invariant(&*self);
        }
        self.data = (self.handle_event)(&self.data, event, data);
    }

    fn update(&mut self, old_data: &In, data: &In) {
        proof {
            use_type_invariant(&*self);
        }
        self.data = (self.handle_update)(&self.data, old_data, data);
    }

    fn reset(&mut self) {
        proof {
            use_type_invariant(&*self);
        }
        self.data = self.initial_data.clone();
    }

    fn data(&self, data: &In) -> (out: Out) {
        proof {
            use_type_invariant(self);
        }
        (self.produce_data)(&self.data, data)
    }
}

/// A widget whose data is made by a scope out of the data it is given and
/// the scope's own state.
#[verifier::reject_recursive_types(Data)]
pub struct ScopeWidget<Data, W: Widget, S: Scope<In = Data, Out = W::Data>> {
    pub inner: W,
    pub scope: S,
}

impl<Data, W: Widget, S: Scope<In = Data, Out = W::Data>> ScopeWidget<Data, W, S> {
    /// What `event` makes of the widget, given the data that the scope made
    /// before and after it took the event, and the widget inside as it was
    /// between its update and its event.
    pub open spec fn event_through(
        &self,
        event: &WidgetEvent,
        data: &Data,
        old_inner_data: W::Data,
        inner_data: W::Data,
        updated: W,
        after: &Self,
    ) -> bool {
        &&& self.scope.data_spec(data, old_inner_data)
        &&& self.scope.event_spec(event, data, &after.scope)
        &&& after.scope.data_spec(data, inner_data)
        &&& self.inner.update_spec(&old_inner_data, &inner_data, &updated)
        &&& updated.event_spec(event, &inner_data, &after.inner)
    }

    /// What `update` makes of the widget, given the data that the scope made
    /// before and after it took the change.
    pub open spec fn update_through(
        &self,
        old_data: &Data,
        data: &Data,
        old_inner_data: W::Data,
        inner_data: W::Data,
        after: &Self,
    ) -> bool {
        &&& self.scope.data_spec(old_data, old_inner_data)
        &&& self.scope.update_spec(old_data, data, &after.scope)
        &&& after.scope.data_spec(data, inner_data)
        &&& self.inner.update_spec(&old_inner_data, &inner_data, &after.inner)
    }

    /// What `force_repaint` makes of the widget, given the data that the
    /// scope made after its reset.
    pub open spec fn force_repaint_through(
        &self,
        data: &Data,
        inner_data: W::Data,
        after: &Self,
    ) -> bool {
        &&& self.scope.reset_spec(&after.scope)
        &&& after.scope.data_spec(data, inner_data)
        &&& self.inner.force_repaint_spec(&inner_data, &after.inner)
    }

    /// What `paint` makes of the widget and asks of the display, given the
    /// data that the scope made.
    pub open spec fn paint_through(
        &self,
        data: &Data,
        inner_data: W::Data,
        after: &Self,
        out: Seq<TextOp>,
    ) -> bool {
        &&& after.scope == self.scope
        &&& self.scope.data_spec(data, inner_data)
        &&& self.inner.paint_spec(&inner_data, &after.inner, out)
    }
}

impl<Data, W: Widget, S: Scope<In = Data, Out = W::Data>> Widget for ScopeWidget<Data, W, S> {
    type Data = Data;

    open spec fn event_spec(&self, event: &WidgetEvent, data: &Data, after: &Self) -> bool {
        exists|old_inner_data: W::Data, inner_data: W::Data, updated: W|
            #[trigger] self.event_through(
                event,
                data,
                old_inner_data,
                inner_data,
                updated,
                after,
            )
    }

    open spec fn update_spec(&self, old_data: &Data, data: &Data, after: &Self) -> bool {
        exists|old_inner_data: W::Data, inner_data: W::Data|
            #[trigger] self.update_through(old_data, data, old_inner_data, inner_data, after)
    }

    open spec fn force_repaint_spec(&self, data: &Data, after: &Self) -> bool {
        exists|inner_data: W::Data| #[trigger] self.force_repaint_through(data, inner_data, after)
    }

    open spec fn paint_spec(&self, data: &Data, after: &Self, out: Writes) -> bool {
        exists|inner_data: W::Data| #[trigger] self.paint_through(data, inner_data, after, out)
    }

    fn event(&mut self, event: &WidgetEvent, data: &Data) {
        let old_combined_data = self.scope.data(data);
        self.scope.event(event, data);
        let combined_data = self.scope.data(data);
        self.inner.update(&old_combined_data, &combined_data);
        let ghost updated = self.inner;
        self.inner.event(event, &combined_data);
        assert(old(self).event_through(
            event,
            data,
            old_combined_data,
            combined_data,
            updated,
            self,
        ));
    }

    fn update(&mut self, old_data: &Data, data: &Data) {
        let old_combined_data = self.scope.data(old_data);
        self.scope.update(old_data, data);
        let combined_data = self.scope.data(data);
        self.inner.update(&old_combined_data, &combined_data);
        assert(old(self).update_through(old_data, data, old_combined_data, combined_data, self));
    }

    fn force_repaint(&mut self, data: &Data) {
        self.scope.reset();
        let combined_data = self.scope.data(data);
        self.inner.force_repaint(&combined_data);
        assert(old(self).force_repaint_through(data, combined_data, self));
    }

    fn paint<D: TextDisplay>(&mut self, data: &Data, display: &mut D) {
        let combined_data = self.scope.data(data);
        self.inner.paint(&combined_data, display);
        assert(old(self).paint_through(
            data,
            combined_data,
            self,
            added(old(display), display),
        ));
    }
}

/// Something that takes a part out of some data.
pub trait Lens<Data> {
    /// The part that is taken out.
    type Out;

    /// What `get` may return.
    spec fn gets(&self, data: &Data, out: Self::Out) -> bool;

    /// The part that the lens takes out of `data`.
    fn get(&self, data: &Data) -> (out: Self::Out)
        ensures
            self.gets(data, out),
    ;
}

/// The lens that a function is: a function that may be called on whatever
/// data there is.
#[verifier::reject_recursive_types(Data)]
#[verifier::reject_recursive_types(Out)]
pub struct FnLens<Data, Out, L: Fn(&Data) -> Out> {
    function: L,
    _data: PhantomData<(Data, Out)>,
}

impl<Data, Out, L: Fn(&Data) -> Out> View for FnLens<Data, Out, L> {
    type V = L;

    closed spec fn view(&self) -> L {
        self.function
    }
}

impl<Data, Out, L: Fn(&Data) -> Out> FnLens<Data, Out, L> {
    #[verifier::type_invariant]
    spec fn callable(&self) -> bool {
        forall|data: &Data| call_requires(self.function, (data,))
    }

    /// The lens that `function` is.
    pub fn new(function: L) -> (r: Self)
        requires
            forall|data: &Data| call_requires(function, (data,)),
        ensures
            r@ == function,
    {
        FnLens { function, _data: PhantomData }
    }
}

impl<Data, Out, L: Fn(&Data) -> Out> Lens<Data> for FnLens<Data, Out, L> {
    type Out = Out;

    open spec fn gets(&self, data: &Data, out: Out) -> bool {
        call_ensures(self@, (data,), out)
    }

    fn get(&self, data: &Data) -> (out: Out) {
        proof {
            use_type_invariant(self);
        }
        (self.function)(data)
    }
}

/// A widget that shows a part of the data it is given: the part that a
/// lens takes out of it.
#[verifier::reject_recursive_types(Data)]
pub struct LensWidget<Data, W: Widget, L: Lens<Data, Out = W::Data>> {
    pub lens: L,
    pub inner: W,
    pub _phantom_data: PhantomData<Data>,
}

impl<Data, W: Widget, L: Lens<Data, Out = W::Data>> LensWidget<Data, W, L> {
    /// What `update` makes of the widget, given what the lens took out of
    /// the old and of the new data.
    pub open spec fn update_through(
        &self,
        old_data: &Data,
        data: &Data,
        old_inner_data: W::Data,
        inner_data: W::Data,
        after: &Self,
    ) -> bool {
        &&& after.lens == self.lens
        &&& self.lens.gets(old_data, old_inner_data)
        &&& self.lens.gets(data, inner_data)
        &&& self.inner.update_spec(&old_inner_data, &inner_data, &after.inner)
    }

    /// Whether `inner_data` is what the lens took out of `data`, and
    /// nothing but the widget inside has changed.
    pub open spec fn through(&self, data: &Data, inner_data: W::Data, after: &Self) -> bool {
        &&& after.lens == self.lens
        &&& self.lens.gets(data, inner_data)
    }
}

impl<Data, W: Widget, L: Lens<Data, Out = W::Data>> Widget for LensWidget<Data, W, L> {
    type Data = Data;

    open spec fn event_spec(&self, event: &WidgetEvent, data: &Data, after: &Self) -> bool {
        exists|inner_data: W::Data|
            #[trigger] self.through(data, inner_data, after) && self.inner.event_spec(
                event,
                &inner_data,
                &after.inner,
            )
    }

    open spec fn update_spec(&self, old_data: &Data, data: &Data, after: &Self) -> bool {
        exists|old_inner_data: W::Data, inner_data: W::Data|
            #[trigger] self.update_through(old_data, data, old_inner_data, inner_data, after)
    }

    open spec fn force_repaint_spec(&self, data: &Data, after: &Self) -> bool {
        exists|inner_data: W::Data|
            #[trigger] self.through(data, inner_data, after) && self.inner.force_repaint_spec(
                &inner_data,
                &after.inner,
            )
    }

    open spec fn paint_spec(&self, data: &Data, after: &Self, out: Writes) -> bool {
        exists|inner_data: W::Data|
            #[trigger] self.through(data, inner_data, after) && self.inner.paint_spec(
                &inner_data,
                &after.inner,
                out,
            )
    }

    fn event(&mut self, event: &WidgetEvent, data: &Data) {
        let inner_data = self.lens.get(data);
        self.inner.event(event, &inner_data);
        assert(old(self).through(data, inner_data, self));
    }

    fn update(&mut self, old_data: &Data, data: &Data) {
        let old_inner_data = self.lens.get(old_data);
        let inner_data = self.lens.get(data);
        self.inner.update(&old_inner_data, &inner_data);
        assert(old(self).update_through(old_data, data, old_inner_data, inner_data, self));
    }

    fn force_repaint(&mut self, data: &Data) {
        let inner_data = self.lens.get(data);
        self.inner.force_repaint(&inner_data);
        assert(old(self).through(data, inner_data, self));
    }

    fn paint<D: TextDisplay>(&mut self, data: &Data, display: &mut D) {
        let inner_data = self.lens.get(data);
        self.inner.paint(&inner_data, display);
        assert(old(self).through(data, inner_data, self));
    }
}

/// Two widgets that show the same data, the first before the second.
pub struct WidgetGroup<T, W1, W2>(pub W1, pub W2, pub PhantomData<T>);

impl<T, W1: Widget<Data = T>, W2: Widget<Data = T>> WidgetGroup<T, W1, W2> {
    /// What `paint` makes of the group, given what the first widget and
    /// what the second asks of the display.
    pub open spec fn paint_both(
        &self,
        data: &T,
        after: &Self,
        first: Seq<TextOp>,
        second: Seq<TextOp>,
    ) -> bool {
        &&& self.0.paint_spec(data, &after.0, first)
        &&& self.1.paint_spec(data, &after.1, second)
    }
}

impl<T, W1: Widget<Data = T>, W2: Widget<Data = T>> Widget for WidgetGroup<T, W1, W2> {
    type Data = T;

    open spec fn event_spec(&self, event: &WidgetEvent, data: &T, after: &Self) -> bool {
        &&& self.0.event_spec(event, data, &after.0)
        &&& self.1.event_spec(event, data, &after.1)
    }

    open spec fn update_spec(&self, old_data: &T, data: &T, after: &Self) -> bool {
        &&& self.0.update_spec(old_data, data, &after.0)
        &&& self.1.update_spec(old_data, data, &after.1)
    }

    open spec fn force_repaint_spec(&self, data: &T, after: &Self) -> bool {
        &&& self.0.force_repaint_spec(data, &after.0)
        &&& self.1.force_repaint_spec(data, &after.1)
    }

    open spec fn paint_spec(&self, data: &T, after: &Self, out: Writes) -> bool {
        exists|first: Seq<TextOp>, second: Seq<TextOp>|
            out == first + second && #[trigger] self.paint_both(data, after, first, second)
    }

    fn event(&mut self, event: &WidgetEvent, data: &T) {
        self.0.event(event, data);
        self.1.event(event, data);
    }

    fn update(&mut self, old_data: &T, data: &T) {
        self.0.update(old_data, data);
        self.1.update(old_data, data);
    }

    fn force_repaint(&mut self, data: &T) {
        self.0.force_repaint(data);
        self.1.force_repaint(data);
    }

    fn paint<D: TextDisplay>(&mut self, data: &T, display: &mut D) {
        self.0.paint(data, display);
        let ghost between = *display;
        self.1.paint(data, display);
        proof {
            let first = added(old(display), &between);
            let second = added(&between, display);
            assert(added(old(display), display) =~= first + second);
            assert(old(self).paint_both(data, self, first, second));
            if display.written() == old(display).written() {
            }
        }
    }
}

/// Ways to wrap a widget into a combinator.
pub trait WidgetExt: Widget {
    /// The widget behind a function: it is shown what `lens` takes out of the
    /// data.
    fn with_lens<Data, M: Fn(&Data) -> Self::Data>(self, lens: M) -> (r: LensWidget<
        Data,
        Self,
        FnLens<Data, Self::Data, M>,
    >)
        requires
            forall|data: &Data| call_requires(lens, (data,)),
        ensures
            r.lens@ == lens,
            r.inner == self,
    {
        LensWidget { lens: FnLens::new(lens), inner: self, _phantom_data: PhantomData }
    }

    /// The widget behind a lens: it is shown what `lens` takes out of the
    /// data.
    fn behind<Data, L: Lens<Data, Out = Self::Data>>(self, lens: L) -> (r: LensWidget<
        Data,
        Self,
        L,
    >)
        ensures
            r == (LensWidget { lens, inner: self, _phantom_data: PhantomData::<Data> }),
    {
        LensWidget { lens, inner: self, _phantom_data: PhantomData }
    }

    /// The widget inside a scope: it is shown what `scope` makes of the data.
    fn with_scope<S: Scope<Out = Self::Data>>(self, scope: S) -> (r: ScopeWidget<S::In, Self, S>)
        ensures
            r == (ScopeWidget { inner: self, scope }),
    {
        ScopeWidget { inner: self, scope }
    }

    /// The widget together with `widget`, which shows the same data after it.
    fn group<W: Widget<Data = Self::Data>>(self, widget: W) -> (r: WidgetGroup<
        Self::Data,
        Self,
        W,
    >)
        ensures
            r == WidgetGroup(self, widget, PhantomData::<Self::Data>),
    {
        WidgetGroup(self, widget, PhantomData)
    }
}

impl<W: Widget> WidgetExt for W {

}

/// A widget that hands every call on to the widget it holds.
pub struct PassThrough<W>(pub W);

impl<T, W: Widget<Data = T>> Widget for PassThrough<W> {
    type Data = T;

    open spec fn event_spec(&self, event: &WidgetEvent, data: &T, after: &Self) -> bool {
        self.0.event_spec(event, data, &after.0)
    }

    open spec fn update_spec(&self, old_data: &T, data: &T, after: &Self) -> bool {
        self.0.update_spec(old_data, data, &after.0)
    }

    open spec fn force_repaint_spec(&self, data: &T, after: &Self) -> bool {
        self.0.force_repaint_spec(data, &after.0)
    }

    open spec fn paint_spec(&self, data: &T, after: &Self, out: Writes) -> bool {
        self.0.paint_spec(data, &after.0, out)
    }

    fn event(&mut self, event: &WidgetEvent, data: &T) {
        self.0.event(event, data)
    }

    fn update(&mut self, old_data: &T, data: &T) {
        self.0.update(old_data, data)
    }

    fn force_repaint(&mut self, data: &T) {
        self.0.force_repaint(data)
    }

    fn paint<D: TextDisplay>(&mut self, data: &T, display: &mut D) {
        self.0.paint(data, display)
    }
}

/// When the data of an either-widget goes over from one variant to the
/// other, the widget that comes into use is forced to repaint with the new
/// data; it is not asked whether the data has changed since it was last in
/// use. The widget that goes out of use stays as it is.
pub proof fn lemma_either_switch_forces_repaint<T, A, B>(
    widget: EitherWidget<T, A, B>,
    old_data: T,
    data: T,
    after: EitherWidget<T, A, B>,
) where
    T: Clone + IntoEither,
    A: Widget<Data = <T as IntoEither>::A>,
    B: Widget<Data = <T as IntoEither>::B>,

    requires
        widget.update_spec(&old_data, &data, &after),
        forall|old_copy: T, copy: T| #[trigger]
            cloned(old_data, old_copy) && #[trigger] cloned(data, copy) ==> (old_copy.either() is A
                <==> copy.either() is B),
    ensures
        exists|copy: T| #[trigger]
            cloned(data, copy) && match copy.either() {
                Either::A(now) => widget.a.force_repaint_spec(&now, &after.a) && after.b
                    == widget.b,
                Either::B(now) => widget.b.force_repaint_spec(&now, &after.b) && after.a
                    == widget.a,
            },
{
}

/// A label that shows what there may be, beside a widget for when there is
/// nothing: once there is something again, the label is written at the next
/// paint, whether or not it has shown the same before.
pub proof fn lemma_label_is_painted_after_a_switch<T, B>(
    widget: EitherWidget<Option<T>, Label<T>, B>,
    value: T,
    updated: EitherWidget<Option<T>, Label<T>, B>,
    painted: EitherWidget<Option<T>, Label<T>, B>,
    out: Seq<TextOp>,
) where T: DisplayText + PartialEq + Clone, B: Widget<Data = ()>
    requires
        forall|copy: T| cloned(value, copy) ==> copy == value,
        widget.update_spec(&None, &Some(value), &updated),
        updated.paint_spec(&Some(value), &painted, out),
    ensures
        out == seq![
            TextOp::Write { segment: widget.a@.segment, text: widget.a@.shown(value.text()) },
        ],
{
}

} // verus!
