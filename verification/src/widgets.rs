//! Widgets: pieces of the screen that know when they have to be painted
//! again.

use std::marker::PhantomData;
use vstd::prelude::*;
use vstd::std_specs::cmp::PartialEqSpec;

use crate::display::{TextDisplay, TextOp, Writes};
use crate::geometry::Segment;
use crate::text::{
    align_right, char_is_whitespace, chars_of, right_aligned, text_from, DisplayText,
};

verus! {

/// `std::time::Instant`: a point in time, carried along and never read here.
#[verifier::external_type_specification]
#[verifier::external_body]
pub struct ExInstant(std::time::Instant);

/// Something that happens to a widget without a change of its data.
pub enum WidgetEvent {
    /// Time has passed; the instant is that of the tick.
    Tick(std::time::Instant),
}

/// What a call has added to the requests made of a text display.
pub open spec fn added<D: TextDisplay>(before: &D, after: &D) -> Writes {
    after.written().skip(before.written().len() as int)
}

/// What a comparison with `!=` may have answered: for a type whose `==` is
/// specified, whether the two values differ; for any other type, anything.
pub open spec fn differ<T: PartialEq>(a: &T, b: &T, answer: bool) -> bool {
    T::obeys_eq_spec() ==> answer == !a.eq_spec(b)
}

/// A piece of the screen that shows some data.
///
/// Each operation is described by a relation between the widget before the
/// call and the widget after it; `paint_spec` also relates them to what the
/// call asks of the display.
pub trait Widget: Sized {
    /// The data that the widget shows.
    type Data;

    /// What `event` may make of the widget.
    spec fn event_spec(&self, event: &WidgetEvent, data: &Self::Data, after: &Self) -> bool;

    /// What `update` may make of the widget.
    spec fn update_spec(&self, old_data: &Self::Data, data: &Self::Data, after: &Self) -> bool;

    /// What `force_repaint` may make of the widget.
    spec fn force_repaint_spec(&self, data: &Self::Data, after: &Self) -> bool;

    /// What `paint` may make of the widget, and what it may ask of the
    /// display on the way.
    spec fn paint_spec(&self, data: &Self::Data, after: &Self, out: Writes) -> bool;

    /// Reacts to something that happened while the data stayed as it is.
    fn event(&mut self, event: &WidgetEvent, data: &Self::Data)
        ensures
            old(self).event_spec(event, data, final(self)),
    ;

    /// Reacts to a change of the data from `old_data` to `data`.
    fn update(&mut self, old_data: &Self::Data, data: &Self::Data)
        ensures
            old(self).update_spec(old_data, data, final(self)),
    ;

    /// Forgets whatever was derived from earlier data, so that the next
    /// `paint` writes the widget anew.
    fn force_repaint(&mut self, data: &Self::Data)
        ensures
            old(self).force_repaint_spec(data, final(self)),
    ;

    /// Writes to `display` what has to be written again, and nothing where
    /// nothing has changed: a call that adds no request leaves the display
    /// as it was.
    fn paint<D: TextDisplay>(&mut self, data: &Self::Data, display: &mut D)
        ensures
            final(display).written() == old(display).written() + added(
                old(display),
                final(display),
            ),
            old(self).paint_spec(data, final(self), added(old(display), final(display))),
            final(display).written() == old(display).written() ==> *final(display) == *old(
                display,
            ),
    ;
}

/// A label that shows a text of its own, whatever the data.
pub struct FixedLabel<Data, S: DisplayText> {
    string: S,
    segment: Segment,
    should_paint: bool,
    _data: PhantomData<Data>,
}

/// A fixed label as plain values.
pub struct FixedLabelView<S> {
    /// What the label shows.
    pub string: S,
    /// Where the label is shown.
    pub segment: Segment,
    /// Whether the label has to be painted.
    pub should_paint: bool,
}

impl<Data, S: DisplayText> View for FixedLabel<Data, S> {
    type V = FixedLabelView<S>;

    closed spec fn view(&self) -> FixedLabelView<S> {
        FixedLabelView {
            string: self.string,
            segment: self.segment,
            should_paint: self.should_paint,
        }
    }
}

impl<Data, S: DisplayText> FixedLabel<Data, S> {
    #[verifier::type_invariant]
    spec fn fits(&self) -> bool {
        self.segment.writable()
    }

    /// A label that shows `string` in `segment`, to be painted once.
    pub fn new(string: S, segment: Segment) -> (r: Self)
        requires
            segment.writable(),
        ensures
            r@ == (FixedLabelView { string, segment, should_paint: true }),
    {
        FixedLabel { string, segment, should_paint: true, _data: PhantomData }
    }
}

impl<Data, S: DisplayText> Widget for FixedLabel<Data, S> {
    type Data = Data;

    open spec fn event_spec(&self, event: &WidgetEvent, data: &Data, after: &Self) -> bool {
        after@ == self@
    }

    open spec fn update_spec(&self, old_data: &Data, data: &Data, after: &Self) -> bool {
        after@ == self@
    }

    open spec fn force_repaint_spec(&self, data: &Data, after: &Self) -> bool {
        after@ == (FixedLabelView { should_paint: true, ..self@ })
    }

    open spec fn paint_spec(&self, data: &Data, after: &Self, out: Writes) -> bool {
        &&& after@ == (FixedLabelView { should_paint: false, ..self@ })
        &&& out == if self@.should_paint {
            seq![TextOp::Write { segment: self@.segment, text: self@.string.text() }]
        } else {
            seq![]
        }
    }

    fn event(&mut self, _event: &WidgetEvent, _data: &Data) {
    }

    fn update(&mut self, _old_data: &Data, _data: &Data) {
    }

    fn force_repaint(&mut self, _data: &Data) {
        proof {
            use_type_invariant(&*self);
        }
        self.should_paint = true;
    }

    fn paint<D: TextDisplay>(&mut self, _data: &Data, display: &mut D) {
        proof {
            use_type_invariant(&*self);
        }
        if self.should_paint {
            self.should_paint = false;
            let text = self.string.to_text();
            display.write_to(self.segment, text.as_str());
        }
        assert(added(old(display), display) =~= if old(self).should_paint {
            seq![TextOp::Write { segment: self.segment, text: self.string.text() }]
        } else {
            seq![]
        });
    }
}

/// How a label sets its text in its segment.
#[derive(Clone, Copy, Debug, PartialEq, Eq, Structural)]
pub enum TextAlignment {
    /// From the first cell on.
    Left,
    /// Flush right, cut to the length of the segment.
    Right,
}

/// A label that shows its data, and is painted again when the data changed.
pub struct Label<T: DisplayText + PartialEq> {
    needs_repainting: bool,
    segment: Segment,
    text_alignment: TextAlignment,
    _data: PhantomData<T>,
}

/// A label as plain values.
pub struct LabelView {
    /// Whether the label has to be painted.
    pub needs_repainting: bool,
    /// Where the label is shown.
    pub segment: Segment,
    /// How the text is set in the segment.
    pub text_alignment: TextAlignment,
}

impl LabelView {
    /// A label that was just made for `segment`: it has to be painted.
    pub open spec fn fresh(segment: Segment, text_alignment: TextAlignment) -> LabelView {
        LabelView { needs_repainting: true, segment, text_alignment }
    }

    /// The text that the label shows for a value with the text `data_text`.
    pub open spec fn shown(self, data_text: Seq<char>) -> Seq<char> {
        match self.text_alignment {
            TextAlignment::Left => data_text,
            TextAlignment::Right => right_aligned(data_text, self.segment.length as int),
        }
    }
}

impl<T: DisplayText + PartialEq> View for Label<T> {
    type V = LabelView;

    closed spec fn view(&self) -> LabelView {
        LabelView {
            needs_repainting: self.needs_repainting,
            segment: self.segment,
            text_alignment: self.text_alignment,
        }
    }
}

impl<T: DisplayText + PartialEq> Label<T> {
    #[verifier::type_invariant]
    spec fn fits(&self) -> bool {
        self.segment.writable()
    }

    /// A label in `segment`, set from the left, to be painted.
    pub fn new(segment: Segment) -> (r: Self)
        requires
            segment.writable(),
        ensures
            r@ == LabelView::fresh(segment, TextAlignment::Left),
    {
        Label {
            needs_repainting: true,
            segment,
            text_alignment: TextAlignment::Left,
            _data: PhantomData,
        }
    }

    /// The same label, set flush right.
    pub fn align_right(self) -> (r: Self)
        ensures
            r@ == (LabelView { text_alignment: TextAlignment::Right, ..self@ }),
    {
        proof {
            use_type_invariant(&self);
        }
        Label {
            needs_repainting: self.needs_repainting,
            segment: self.segment,
            text_alignment: TextAlignment::Right,
            _data: PhantomData,
        }
    }
}

impl<T: DisplayText + PartialEq> Widget for Label<T> {
    type Data = T;

    open spec fn event_spec(&self, event: &WidgetEvent, data: &T, after: &Self) -> bool {
        after@ == self@
    }

    open spec fn update_spec(&self, old_data: &T, data: &T, after: &Self) -> bool {
        exists|changed: bool|
            {
                &&& #[trigger] differ(old_data, data, changed)
                &&& after@ == (LabelView {
                    needs_repainting: self@.needs_repainting || changed,
                    ..self@
                })
            }
    }

    open spec fn force_repaint_spec(&self, data: &T, after: &Self) -> bool {
        after@ == (LabelView { needs_repainting: true, ..self@ })
    }

    open spec fn paint_spec(&self, data: &T, after: &Self, out: Writes) -> bool {
        &&& after@ == (LabelView { needs_repainting: false, ..self@ })
        &&& out == if self@.needs_repainting {
            seq![TextOp::Write { segment: self@.segment, text: self@.shown(data.text()) }]
        } else {
            seq![]
        }
    }

    fn event(&mut self, _event: &WidgetEvent, _data: &T) {
    }

    fn update(&mut self, old_data: &T, data: &T) {
        proof {
            use_type_invariant(&*self);
        }
        let changed = old_data != data;
        if changed {
            self.needs_repainting = true;
        }
        assert(differ(old_data, data, changed));
    }

    fn force_repaint(&mut self, _data: &T) {
        proof {
            use_type_invariant(&*self);
        }
        self.needs_repainting = true;
    }

    fn paint<D: TextDisplay>(&mut self, data: &T, display: &mut D) {
        proof {
            use_type_invariant(&*self);
        }
        if self.needs_repainting {
            self.needs_repainting = false;
            let text = data.to_text();
            match self.text_alignment {
                TextAlignment::Left => display.write_to(self.segment, text.as_str()),
                TextAlignment::Right => {
                    let aligned = align_right(text.as_str(), self.segment.length as usize);
                    display.write_to(self.segment, aligned.as_str())
                },
            }
        }
        assert(added(old(display), display) =~= if old(self).needs_repainting {
            seq![TextOp::Write { segment: self.segment, text: old(self)@.shown(data.text()) }]
        } else {
            seq![]
        });
    }
}

/// Something that makes a value each time it is asked.
pub trait Generate {
    /// What is made.
    type Value;

    /// What `generate` may return.
    spec fn generates(&self, value: Self::Value) -> bool;

    /// A value, made now.
    fn generate(&self) -> (value: Self::Value)
        ensures
            self.generates(value),
    ;
}

/// The generator that a function is: a function that may be called.
#[verifier::reject_recursive_types(T)]
pub struct FnGenerator<T, G: Fn() -> T> {
    function: G,
    _value: PhantomData<T>,
}

impl<T, G: Fn() -> T> View for FnGenerator<T, G> {
    type V = G;

    closed spec fn view(&self) -> G {
        self.function
    }
}

impl<T, G: Fn() -> T> FnGenerator<T, G> {
    #[verifier::type_invariant]
    spec fn callable(&self) -> bool {
        call_requires(self.function, ())
    }

    /// The generator that `function` is.
    pub fn new(function: G) -> (r: Self)
        requires
            call_requires(function, ()),
        ensures
            r@ == function,
    {
        FnGenerator { function, _value: PhantomData }
    }
}

impl<T, G: Fn() -> T> Generate for FnGenerator<T, G> {
    type Value = T;

    open spec fn generates(&self, value: T) -> bool {
        call_ensures(self@, (), value)
    }

    fn generate(&self) -> (value: T) {
        proof {
            use_type_invariant(self);
        }
        (self.function)()
    }
}

/// A label that makes its value anew each time it is painted, and writes it
/// only where it differs from the value written last.
#[verifier::reject_recursive_types(T)]
pub struct GeneratedLabel<T: DisplayText + PartialEq, G: Generate<Value = T>, Data> {
    segment: Segment,
    generator: G,
    previous_value: Option<T>,
    _data: PhantomData<Data>,
}

/// A generated label as plain values.
pub struct GeneratedLabelView<T, G> {
    /// Where the label is shown.
    pub segment: Segment,
    /// What makes the value.
    pub generator: G,
    /// The value that was written last, if one was written since the label
    /// was made or forced to repaint.
    pub previous_value: Option<T>,
}

impl<T: DisplayText + PartialEq, G> GeneratedLabelView<T, G> {
    /// What a paint that got `value` from the generator makes of the label
    /// and asks of the display, given what the comparison with the value
    /// written last has answered.
    pub open spec fn painted(
        self,
        value: T,
        repaint: bool,
        after: Self,
        out: Seq<TextOp>,
    ) -> bool {
        &&& match self.previous_value {
            Some(previous) => differ(&previous, &value, repaint),
            None => repaint,
        }
        &&& after == if repaint {
            GeneratedLabelView { previous_value: Some(value), ..self }
        } else {
            self
        }
        &&& out == if repaint {
            seq![TextOp::Write { segment: self.segment, text: value.text() }]
        } else {
            seq![]
        }
    }
}

impl<T: DisplayText + PartialEq, G: Generate<Value = T>, Data> View for GeneratedLabel<
    T,
    G,
    Data,
> {
    type V = GeneratedLabelView<T, G>;

    closed spec fn view(&self) -> GeneratedLabelView<T, G> {
        GeneratedLabelView {
            segment: self.segment,
            generator: self.generator,
            previous_value: self.previous_value,
        }
    }
}

impl<T: DisplayText + PartialEq, G: Fn() -> T, Data> GeneratedLabel<T, FnGenerator<T, G>, Data> {
    /// A label in `segment` that shows what the function `generator`
    /// returns.
    pub fn new(segment: Segment, generator: G) -> (r: Self)
        requires
            segment.writable(),
            call_requires(generator, ()),
        ensures
            r@.segment == segment,
            r@.generator@ == generator,
            r@.previous_value is None,
    {
        GeneratedLabel {
            segment,
            generator: FnGenerator::new(generator),
            previous_value: None,
            _data: PhantomData,
        }
    }
}

impl<T: DisplayText + PartialEq, G: Generate<Value = T>, Data> GeneratedLabel<T, G, Data> {
    #[verifier::type_invariant]
    spec fn fits(&self) -> bool {
        self.segment.writable()
    }

    /// A label in `segment` that shows what `generator` makes.
    pub fn with_generator(segment: Segment, generator: G) -> (r: Self)
        requires
            segment.writable(),
        ensures
            r@ == (GeneratedLabelView::<T, G> { segment, generator, previous_value: None }),
    {
        GeneratedLabel { segment, generator, previous_value: None, _data: PhantomData }
    }
}

impl<T: DisplayText + PartialEq, G: Generate<Value = T>, Data> Widget for GeneratedLabel<
    T,
    G,
    Data,
> {
    type Data = Data;

    open spec fn event_spec(&self, event: &WidgetEvent, data: &Data, after: &Self) -> bool {
        after@ == self@
    }

    open spec fn update_spec(&self, old_data: &Data, data: &Data, after: &Self) -> bool {
        after@ == self@
    }

    open spec fn force_repaint_spec(&self, data: &Data, after: &Self) -> bool {
        after@ == (GeneratedLabelView { previous_value: None, ..self@ })
    }

    open spec fn paint_spec(&self, data: &Data, after: &Self, out: Writes) -> bool {
        exists|value: T, repaint: bool|
            {
                &&& self@.generator.generates(value)
                &&& #[trigger] self@.painted(value, repaint, after@, out)
            }
    }

    fn event(&mut self, _event: &WidgetEvent, _data: &Data) {
    }

    fn update(&mut self, _old_data: &Data, _data: &Data) {
    }

    fn force_repaint(&mut self, _data: &Data) {
        proof {
            use_type_invariant(&*self);
        }
        self.previous_value = None;
    }

    fn paint<D: TextDisplay>(&mut self, _data: &Data, display: &mut D) {
        proof {
            use_type_invariant(&*self);
        }
        let new_value = self.generator.generate();
        let repaint = match &self.previous_value {
            Some(previous) => *previous != new_value,
            None => true,
        };
        if repaint {
            let text = new_value.to_text();
            display.write_to(self.segment, text.as_str());
            self.previous_value = Some(new_value);
        }
        proof {
            let out = added(old(display), display);
            assert(out =~= if repaint {
                seq![TextOp::Write { segment: self.segment, text: new_value.text() }]
            } else {
                seq![]
            });
            assert(old(self)@.painted(new_value, repaint, self@, out));
        }
    }
}

/// Number of ticks that a scrolling label rests at the start of its text
/// before it scrolls.
pub const WAIT_TICKS: usize = 2;

/// A scroll step passes one character fewer than this of the word it starts
/// in before it looks for the white space that ends the word.
pub const MAX_SCROLL: usize = 6;

/// A scrolling label that has this many characters left to show, or fewer,
/// goes back to the start of its text.
pub const RESET_THRESHOLD: usize = 6;

/// Which characters of a text are white space.
pub open spec fn whiteness(text: Seq<char>) -> Seq<bool> {
    Seq::new(text.len(), |i: int| char_is_whitespace(text[i]))
}

/// The first index at or after `from` that is not white, if there is one.
pub open spec fn next_word_char(white: Seq<bool>, from: int) -> Option<int>
    decreases white.len() - from,
{
    if from < 0 || from >= white.len() {
        None
    } else if !white[from] {
        Some(from)
    } else {
        next_word_char(white, from + 1)
    }
}

/// The first index at or after `from` that is white, if there is one.
pub open spec fn next_white(white: Seq<bool>, from: int) -> Option<int>
    decreases white.len() - from,
{
    if from < 0 || from >= white.len() {
        None
    } else if white[from] {
        Some(from)
    } else {
        next_white(white, from + 1)
    }
}

/// The first index at or after `at` that is white, or `limit` or the end of
/// the text if one of them comes first.
pub open spec fn word_end(white: Seq<bool>, at: int, limit: int) -> int
    decreases limit - at,
{
    if at >= limit || at < 0 || at >= white.len() || white[at] {
        at
    } else {
        word_end(white, at + 1, limit)
    }
}

/// Where a scroll step takes a text that is shown from index `start`; `white`
/// says which of its characters are white space. The step passes up to
/// `MAX_SCROLL - 1` characters that are no white space, goes on until it has
/// passed a white space, and lands on the next character that is none.
/// `None` where no white space is left to pass, or no character after it
/// that is none.
pub open spec fn scroll_target(white: Seq<bool>, start: int) -> Option<int> {
    match next_white(white, word_end(white, start, start + MAX_SCROLL - 1)) {
        Some(gap) => next_word_char(white, gap + 1),
        None => None,
    }
}

/// `next_word_char` finds the first index that is not white: where it
/// answers `Some(at)`, `at` is not white and all from `from` up to it are;
/// where it answers `None`, all from `from` on are.
pub proof fn lemma_next_word_char(white: Seq<bool>, from: int)
    requires
        0 <= from,
    ensures
        match next_word_char(white, from) {
            Some(at) => {
                &&& from <= at < white.len()
                &&& !white[at]
                &&& forall|i: int| from <= i < at ==> #[trigger] white[i]
            },
            None => forall|i: int| from <= i < white.len() ==> #[trigger] white[i],
        },
    decreases white.len() - from,
{
    if from < white.len() && white[from] {
        lemma_next_word_char(white, from + 1);
    }
}

/// `next_white` finds the first index that is white: where it answers
/// `Some(at)`, `at` is white and none from `from` up to it is; where it
/// answers `None`, none from `from` on is.
pub proof fn lemma_next_white(white: Seq<bool>, from: int)
    requires
        0 <= from,
    ensures
        match next_white(white, from) {
            Some(at) => {
                &&& from <= at < white.len()
                &&& white[at]
                &&& forall|i: int| from <= i < at ==> !#[trigger] white[i]
            },
            None => forall|i: int| from <= i < white.len() ==> !#[trigger] white[i],
        },
    decreases white.len() - from,
{
    if from < white.len() && !white[from] {
        lemma_next_white(white, from + 1);
    }
}

/// `word_end` stops at the first white index, at the limit or at the end
/// of the text: it passes no white space, so that the first white space
/// after it is the first after where it set out.
pub proof fn lemma_word_end(white: Seq<bool>, at: int, limit: int)
    requires
        0 <= at <= limit,
    ensures
        at <= word_end(white, at, limit) <= limit,
        next_white(white, word_end(white, at, limit)) == next_white(white, at),
    decreases limit - at,
{
    if at < limit && at < white.len() && !white[at] {
        lemma_word_end(white, at + 1, limit);
    }
}

/// A scroll step lands on the first character that is no white space after
/// the first white space at or after the start, however long the word is
/// that it starts in.
pub proof fn lemma_scroll_target(white: Seq<bool>, start: int)
    requires
        0 <= start,
    ensures
        scroll_target(white, start) == match next_white(white, start) {
            Some(gap) => next_word_char(white, gap + 1),
            None => None,
        },
        match scroll_target(white, start) {
            Some(at) => {
                &&& next_white(white, start) matches Some(gap)
                &&& start <= gap < at < white.len()
                &&& white[gap]
                &&& white[at - 1]
                &&& !white[at]
                &&& forall|i: int| start <= i < gap ==> !#[trigger] white[i]
                &&& forall|i: int| gap <= i < at ==> #[trigger] white[i]
            },
            None => match next_white(white, start) {
                Some(gap) => forall|i: int| gap <= i < white.len() ==> #[trigger] white[i],
                None => forall|i: int| start <= i < white.len() ==> !#[trigger] white[i],
            },
        },
{
    lemma_word_end(white, start, start + MAX_SCROLL - 1);
    lemma_next_white(white, start);
    match next_white(white, start) {
        Some(gap) => {
            lemma_next_word_char(white, gap + 1);
        },
        None => {},
    }
}

/// Finds where a scroll step takes a text that is shown from `start`, given
/// which of its characters are white space.
pub fn scroll_target_of(white: &Vec<bool>, start: usize) -> (r: Option<usize>)
    ensures
        scroll_target(white@, start as int) == match r {
            Some(at) => Some(at as int),
            None => None,
        },
        r matches Some(at) ==> start < at < white.len(),
{
    let ghost limit = start + MAX_SCROLL - 1;
    let mut stop: usize = start;
    let mut passed: usize = 0;
    while passed < MAX_SCROLL - 1 && stop < white.len() && !white[stop]
        invariant
            stop == start + passed,
            passed <= MAX_SCROLL - 1,
            limit == start + MAX_SCROLL - 1,
            word_end(white@, stop as int, limit) == word_end(white@, start as int, limit),
        decreases MAX_SCROLL - 1 - passed,
    {
        stop += 1;
        passed += 1;
    }
    let mut gap: usize = stop;
    while gap < white.len() && !white[gap]
        invariant
            start <= stop <= gap,
            next_white(white@, gap as int) == next_white(white@, stop as int),
        decreases white.len() - gap,
    {
        gap += 1;
    }
    if gap >= white.len() {
        return None;
    }
    let mut at: usize = gap + 1;
    while at < white.len()
        invariant
            start <= gap < at <= white.len(),
            scroll_target(white@, start as int) == next_word_char(white@, gap + 1),
            next_word_char(white@, at as int) == next_word_char(white@, gap + 1),
        decreases white.len() - at,
    {
        if !white[at] {
            return Some(at);
        }
        at += 1;
    }
    None
}

/// Finds where a scroll step takes a text that is shown from `start`.
fn find_scroll_target(text: &Vec<char>, start: usize) -> (r: Option<usize>)
    ensures
        scroll_target(whiteness(text@), start as int) == match r {
            Some(at) => Some(at as int),
            None => None,
        },
        r matches Some(at) ==> start < at < text.len(),
{
    let mut white: Vec<bool> = Vec::new();
    let mut i: usize = 0;
    while i < text.len()
        invariant
            i <= text.len(),
            white@ == whiteness(text@).take(i as int),
        decreases text.len() - i,
    {
        white.push(text[i].is_whitespace());
        i += 1;
    }
    assert(white@ =~= whiteness(text@));
    scroll_target_of(&white, start)
}

/// A scrolling label as plain values.
pub struct Marquee {
    /// Whether the label has to be painted.
    pub needs_repainting: bool,
    /// Number of characters left out at the start of the text.
    pub start_position: int,
    /// Number of ticks to let pass before the next scroll step.
    pub wait_ticks_remaining: int,
    /// Where the label is shown.
    pub segment: Segment,
    /// The text made from the data when it was last needed, if it was
    /// needed since the data changed.
    pub text: Option<Seq<char>>,
}

impl Marquee {
    /// A label that was just made for `segment`: it stands at the start of
    /// its text, which it has yet to make, and has to be painted.
    pub open spec fn fresh(segment: Segment) -> Marquee {
        Marquee {
            needs_repainting: true,
            start_position: 0,
            wait_ticks_remaining: 0,
            segment,
            text: None,
        }
    }

    /// The text of the label: the one it has kept, or else that of the data.
    pub open spec fn text_for(self, data_text: Seq<char>) -> Seq<char> {
        match self.text {
            Some(text) => text,
            None => data_text,
        }
    }

    /// The label back at the start of its text, resting, to be painted.
    pub open spec fn reset(self) -> Marquee {
        Marquee {
            needs_repainting: true,
            start_position: 0,
            wait_ticks_remaining: WAIT_TICKS as int,
            ..self
        }
    }

    /// The label with its text forgotten, back at the start.
    pub open spec fn forced(self) -> Marquee {
        Marquee { text: None, ..self.reset() }
    }

    /// The label after a tick. A text that fits the segment stays where it
    /// is. A longer one rests while ticks are left to wait; then it scrolls
    /// on to the next word, or goes back to the start once
    /// `RESET_THRESHOLD` characters or fewer are left, or no further word.
    pub open spec fn tick(self, data_text: Seq<char>) -> Marquee {
        let text = self.text_for(data_text);
        let kept = Marquee { text: Some(text), ..self };
        if text.len() <= self.segment.length {
            kept
        } else if self.wait_ticks_remaining > 0 {
            Marquee { wait_ticks_remaining: self.wait_ticks_remaining - 1, ..kept }
        } else if text.len() - self.start_position <= RESET_THRESHOLD {
            kept.reset()
        } else {
            match scroll_target(whiteness(text), self.start_position) {
                Some(at) => Marquee { needs_repainting: true, start_position: at, ..kept },
                None => kept.reset(),
            }
        }
    }

    /// The part of the text that the label shows.
    pub open spec fn visible(self, data_text: Seq<char>) -> Seq<char> {
        self.text_for(data_text).skip(self.start_position)
    }

    /// The label after it was painted.
    pub open spec fn painted(self, data_text: Seq<char>) -> Marquee {
        if self.needs_repainting {
            Marquee { needs_repainting: false, text: Some(self.text_for(data_text)), ..self }
        } else {
            self
        }
    }
}

/// A label for a text that may be longer than its segment: it shows the text
/// from a start position on, and moves that position along with the ticks.
pub struct ScrollingLabel<T: DisplayText + PartialEq> {
    needs_repainting: bool,
    start_position: usize,
    wait_ticks_remaining: usize,
    segment: Segment,
    text: Option<Vec<char>>,
    _data: PhantomData<T>,
}

impl<T: DisplayText + PartialEq> View for ScrollingLabel<T> {
    type V = Marquee;

    closed spec fn view(&self) -> Marquee {
        Marquee {
            needs_repainting: self.needs_repainting,
            start_position: self.start_position as int,
            wait_ticks_remaining: self.wait_ticks_remaining as int,
            segment: self.segment,
            text: match self.text {
                Some(text) => Some(text@),
                None => None,
            },
        }
    }
}

impl<T: DisplayText + PartialEq> ScrollingLabel<T> {
    #[verifier::type_invariant]
    spec fn fits(&self) -> bool {
        &&& self.segment.writable()
        &&& match self.text {
            Some(text) => self.start_position <= text.len(),
            None => self.start_position == 0,
        }
    }

    /// A label in `segment`, at the start of its text, to be painted.
    pub fn new(segment: Segment) -> (r: Self)
        requires
            segment.writable(),
        ensures
            r@ == Marquee::fresh(segment),
    {
        ScrollingLabel {
            needs_repainting: true,
            start_position: 0,
            wait_ticks_remaining: 0,
            segment,
            text: None,
            _data: PhantomData,
        }
    }

    /// Makes the text from the data unless the label has kept one.
    fn generate_text(&mut self, data: &T)
        ensures
            final(self)@ == (Marquee {
                text: Some(old(self)@.text_for(data.text())),
                ..old(self)@
            }),
    {
        proof {
            use_type_invariant(&*self);
        }
        if self.text.is_none() {
            let text = data.to_text();
            self.text = Some(chars_of(text.as_str()));
        }
    }

    /// Goes back to the start of the text, to rest there and to be painted.
    fn reset_scroll(&mut self)
        ensures
            final(self)@ == old(self)@.reset(),
    {
        proof {
            use_type_invariant(&*self);
        }
        self.needs_repainting = true;
        self.start_position = 0;
        self.wait_ticks_remaining = WAIT_TICKS;
    }

    /// Takes one tick into account.
    pub fn update_scroll(&mut self, data: &T)
        ensures
            final(self)@ == old(self)@.tick(data.text()),
    {
        self.generate_text(data);
        proof {
            use_type_invariant(&*self);
        }
        let length: usize = match &self.text {
            Some(text) => text.len(),
            None => 0,
        };
        if length <= self.segment.length as usize {
            return ;
        }
        if self.wait_ticks_remaining > 0 {
            self.wait_ticks_remaining -= 1;
            return ;
        }
        self.needs_repainting = true;
        if length - self.start_position <= RESET_THRESHOLD {
            self.reset_scroll();
            return ;
        }
        let target = match &self.text {
            Some(text) => find_scroll_target(text, self.start_position),
            None => None,
        };
        match target {
            Some(at) => {
                self.start_position = at;
            },
            None => {
                self.reset_scroll();
            },
        }
    }
}

impl<T: DisplayText + PartialEq> Widget for ScrollingLabel<T> {
    type Data = T;

    open spec fn event_spec(&self, event: &WidgetEvent, data: &T, after: &Self) -> bool {
        after@ == self@.tick(data.text())
    }

    open spec fn update_spec(&self, old_data: &T, data: &T, after: &Self) -> bool {
        exists|changed: bool|
            {
                &&& #[trigger] differ(old_data, data, changed)
                &&& after@ == if changed {
                    self@.forced()
                } else {
                    self@
                }
            }
    }

    open spec fn force_repaint_spec(&self, data: &T, after: &Self) -> bool {
        after@ == self@.forced()
    }

    open spec fn paint_spec(&self, data: &T, after: &Self, out: Writes) -> bool {
        &&& after@ == self@.painted(data.text())
        &&& out == if self@.needs_repainting {
            seq![TextOp::Write { segment: self@.segment, text: self@.visible(data.text()) }]
        } else {
            seq![]
        }
    }

    fn event(&mut self, event: &WidgetEvent, data: &T) {
        match event {
            WidgetEvent::Tick(_) => self.update_scroll(data),
        }
    }

    fn update(&mut self, old_data: &T, data: &T) {
        let changed = old_data != data;
        if changed {
            self.force_repaint(data);
        }
        assert(differ(old_data, data, changed));
    }

    fn force_repaint(&mut self, _data: &T) {
        proof {
            use_type_invariant(&*self);
        }
        self.start_position = 0;
        self.text = None;
        self.reset_scroll();
    }

    fn paint<D: TextDisplay>(&mut self, data: &T, display: &mut D) {
        if self.needs_repainting {
            self.generate_text(data);
            proof {
                use_type_invariant(&*self);
            }
            self.needs_repainting = false;
            let visible = match &self.text {
                Some(text) => text_from(text, self.start_position),
                None => String::new(),
            };
            display.write_to(self.segment, visible.as_str());
        }
        assert(added(old(display), display) =~= if old(self).needs_repainting {
            seq![
                TextOp::Write { segment: self.segment, text: old(self)@.visible(data.text()) },
            ]
        } else {
            seq![]
        });
    }
}

impl Marquee {
    /// The label after `count` ticks.
    pub open spec fn ticks(self, data_text: Seq<char>, count: nat) -> Marquee
        decreases count,
    {
        if count == 0 {
            self
        } else {
            self.ticks(data_text, (count - 1) as nat).tick(data_text)
        }
    }
}

/// A label that was painted and then told that its data went from a value
/// to an equal one has nothing to paint: the next paint asks nothing of the
/// display.
pub proof fn lemma_label_equal_update_paints_nothing<T: DisplayText + PartialEq>(
    label: Label<T>,
    shown: T,
    painted: Label<T>,
    first: Seq<TextOp>,
    old_data: T,
    data: T,
    updated: Label<T>,
    repainted: Label<T>,
    out: Seq<TextOp>,
)
    requires
        T::obeys_eq_spec(),
        label.paint_spec(&shown, &painted, first),
        old_data.eq_spec(&data),
        painted.update_spec(&old_data, &data, &updated),
        updated.paint_spec(&data, &repainted, out),
    ensures
        !updated@.needs_repainting,
        out == Seq::<TextOp>::empty(),
{
}

/// A label that was forced to repaint writes its data at the next paint,
/// whether or not it has written the same before.
pub proof fn lemma_label_forced_paints<T: DisplayText + PartialEq>(
    label: Label<T>,
    forced_with: T,
    forced: Label<T>,
    data: T,
    painted: Label<T>,
    out: Seq<TextOp>,
)
    requires
        label.force_repaint_spec(&forced_with, &forced),
        forced.paint_spec(&data, &painted, out),
    ensures
        out == seq![
            TextOp::Write { segment: label@.segment, text: label@.shown(data.text()) },
        ],
{
}

/// A text that fits the segment never scrolls: however many ticks pass, the
/// label shows the same part of the same text, has as many ticks to wait as
/// before, and the ticks give it no reason to be painted. All that a tick
/// may do is to make the text that the label keeps.
pub proof fn lemma_fitting_text_never_scrolls(label: Marquee, data_text: Seq<char>, count: nat)
    requires
        label.text_for(data_text).len() <= label.segment.length,
    ensures
        label.ticks(data_text, count).visible(data_text) == label.visible(data_text),
        label.ticks(data_text, count).start_position == label.start_position,
        label.ticks(data_text, count).wait_ticks_remaining == label.wait_ticks_remaining,
        label.ticks(data_text, count).needs_repainting == label.needs_repainting,
        label.ticks(data_text, count).segment == label.segment,
    decreases count,
{
    if count > 0 {
        lemma_fitting_text_never_scrolls(label, data_text, (count - 1) as nat);
        let before = label.ticks(data_text, (count - 1) as nat);
        assert(before.text_for(data_text) == label.text_for(data_text)) by {
            lemma_ticks_keep_text(label, data_text, (count - 1) as nat);
        }
    }
}

/// Ticks do not change the text of a label.
pub proof fn lemma_ticks_keep_text(label: Marquee, data_text: Seq<char>, count: nat)
    ensures
        label.ticks(data_text, count).text_for(data_text) == label.text_for(data_text),
        label.ticks(data_text, count).segment == label.segment,
    decreases count,
{
    if count > 0 {
        lemma_ticks_keep_text(label, data_text, (count - 1) as nat);
    }
}

/// A label whose text is too long for its segment rests while it has ticks
/// to wait: each tick takes one off the count and changes nothing else. A
/// label that has just gone back to the start therefore shows the start for
/// `WAIT_TICKS` ticks, and the tick after those is the first to move it.
pub proof fn lemma_long_text_rests(label: Marquee, data_text: Seq<char>)
    requires
        label.text_for(data_text).len() > label.segment.length,
        label.wait_ticks_remaining > 0,
    ensures
        label.tick(data_text) == (Marquee {
            wait_ticks_remaining: label.wait_ticks_remaining - 1,
            text: Some(label.text_for(data_text)),
            ..label
        }),
        label.wait_ticks_remaining == WAIT_TICKS ==> {
            let rested = label.ticks(data_text, WAIT_TICKS as nat);
            &&& rested.start_position == label.start_position
            &&& rested.needs_repainting == label.needs_repainting
            &&& rested.wait_ticks_remaining == 0
        },
{
    reveal_with_fuel(Marquee::ticks, 3);
}

/// A label whose text is too long for its segment, with no tick left to
/// wait and more than `RESET_THRESHOLD` characters left to show, scrolls on
/// to the start of the next word: it passes the rest of the word it starts
/// in, however long that is, and the white space after it, and lands on the
/// first character that is none. Where no white space is left, or nothing
/// but white space after it, it goes back to the start.
pub proof fn lemma_long_text_scrolls(label: Marquee, data_text: Seq<char>)
    requires
        label.text_for(data_text).len() > label.segment.length,
        label.wait_ticks_remaining <= 0,
        0 <= label.start_position,
        label.text_for(data_text).len() - label.start_position > RESET_THRESHOLD,
    ensures
        ({
            let text = label.text_for(data_text);
            let start = label.start_position;
            let kept = Marquee { text: Some(text), ..label };
            match scroll_target(whiteness(text), start) {
                Some(at) => {
                    &&& label.tick(data_text) == (Marquee {
                        needs_repainting: true,
                        start_position: at,
                        ..kept
                    })
                    &&& next_white(whiteness(text), start) matches Some(gap)
                    &&& start <= gap < at < text.len()
                    &&& forall|i: int| start <= i < gap ==> !char_is_whitespace(#[trigger] text[i])
                    &&& forall|i: int| gap <= i < at ==> char_is_whitespace(#[trigger] text[i])
                    &&& !char_is_whitespace(text[at])
                },
                None => {
                    &&& label.tick(data_text) == kept.reset()
                    &&& match next_white(whiteness(text), start) {
                        Some(gap) => forall|i: int|
                            gap <= i < text.len() ==> char_is_whitespace(#[trigger] text[i]),
                        None => forall|i: int|
                            start <= i < text.len() ==> !char_is_whitespace(#[trigger] text[i]),
                    }
                },
            }
        }),
{
    let text = label.text_for(data_text);
    let white = whiteness(text);
    let start = label.start_position;
    lemma_scroll_target(white, start);
    lemma_next_white(white, start);
    match next_white(white, start) {
        Some(gap) => {
            assert forall|i: int| start <= i < gap implies !char_is_whitespace(
                #[trigger] text[i],
            ) by {
                assert(!white[i]);
            }
            match scroll_target(white, start) {
                Some(at) => {
                    assert forall|i: int| gap <= i < at implies char_is_whitespace(
                        #[trigger] text[i],
                    ) by {
                        assert(white[i]);
                    }
                },
                None => {
                    assert forall|i: int| gap <= i < text.len() implies char_is_whitespace(
                        #[trigger] text[i],
                    ) by {
                        assert(white[i]);
                    }
                },
            }
        },
        None => {
            assert forall|i: int| start <= i < text.len() implies !char_is_whitespace(
                #[trigger] text[i],
            ) by {
                assert(!white[i]);
            }
        },
    }
}

/// A label whose text is too long for its segment, with no tick left to
/// wait and `RESET_THRESHOLD` characters or fewer left to show, goes back to
/// the start of its text, to rest there for `WAIT_TICKS` ticks.
pub proof fn lemma_short_rest_resets(label: Marquee, data_text: Seq<char>)
    requires
        label.text_for(data_text).len() > label.segment.length,
        label.wait_ticks_remaining <= 0,
        label.text_for(data_text).len() - label.start_position <= RESET_THRESHOLD,
    ensures
        label.tick(data_text) == (Marquee {
            needs_repainting: true,
            start_position: 0,
            wait_ticks_remaining: WAIT_TICKS as int,
            text: Some(label.text_for(data_text)),
            ..label
        }),
{
}

} // verus!
