//! The pages the user has walked through, as a stack, and the text field of
//! the page on top.
//!
//! The model of the state is a sequence of frames, the root page first and
//! the current page last. A frame holds a page and the text its field held
//! when the page was last on top. The sequence is never empty: the current
//! page is stored apart from the pages beneath it, so there is no state
//! without one.

use vstd::prelude::*;

verus! {

/// A screen of the tool, with what it needs to know to show itself.
#[derive(Clone, Copy, Debug, PartialEq, Eq, Structural)]
pub enum Page {
    /// The entry page, from which every other page is reached.
    Root,
    /// The list of accounts.
    Accounts,
    /// One account, by its place in the list.
    Account(usize),
    /// The address book.
    AddressBook,
    /// The list of networks.
    Networks,
    /// One network, by its place in the list.
    Network(usize),
}

/// One entry of the stack: a page, and the text in its field.
pub struct Frame {
    pub page: Page,
    pub input: Seq<char>,
}

/// A step of navigation.
#[derive(Clone, Debug, PartialEq, Eq)]
pub enum Transition {
    /// Open a page on top of the current one.
    Push(Page),
    /// Leave the current page for the one beneath it.
    Pop,
    /// Put another page in the place of the current one.
    Replace(Page),
    /// Put a text in the field of the current page.
    SetInput(String),
}

/// The stack with which the tool starts: the root page, its field empty.
pub open spec fn initial(root: Page) -> Seq<Frame> {
    seq![Frame { page: root, input: Seq::empty() }]
}

/// The stack with `page` opened on top, its field empty.
pub open spec fn pushed(stack: Seq<Frame>, page: Page) -> Seq<Frame> {
    stack.push(Frame { page, input: Seq::empty() })
}

/// The stack without its top page. The root page is never taken away: a
/// stack of one page stays as it is.
pub open spec fn popped(stack: Seq<Frame>) -> Seq<Frame> {
    if stack.len() > 1 {
        stack.drop_last()
    } else {
        stack
    }
}

/// The stack with `page` in the place of its top page, its field empty.
pub open spec fn replaced(stack: Seq<Frame>, page: Page) -> Seq<Frame> {
    stack.update(stack.len() - 1, Frame { page, input: Seq::empty() })
}

/// The stack with `text` in the field of its top page.
pub open spec fn typed(stack: Seq<Frame>, text: Seq<char>) -> Seq<Frame> {
    stack.update(stack.len() - 1, Frame { page: stack.last().page, input: text })
}

/// The stack after one step.
pub open spec fn step(stack: Seq<Frame>, transition: Transition) -> Seq<Frame> {
    match transition {
        Transition::Push(page) => pushed(stack, page),
        Transition::Pop => popped(stack),
        Transition::Replace(page) => replaced(stack, page),
        Transition::SetInput(text) => typed(stack, text@),
    }
}

/// The stack after a run of steps, the first of them taken first.
pub open spec fn run(stack: Seq<Frame>, transitions: Seq<Transition>) -> Seq<Frame>
    decreases transitions.len(),
{
    if transitions.len() == 0 {
        stack
    } else {
        run(step(stack, transitions.first()), transitions.drop_first())
    }
}

/// Where the user is, and how they got there.
#[derive(Clone, Debug)]
pub struct Navigation {
    /// The pages beneath the current one, the root page first, each with the
    /// text its field held when another page was opened on top of it.
    beneath: Vec<(Page, String)>,
    /// The page on top.
    current: Page,
    /// The text in the field of the page on top.
    text_input: String,
}

impl View for Navigation {
    type V = Seq<Frame>;

    closed spec fn view(&self) -> Seq<Frame> {
        self.beneath@.map_values(|entry: (Page, String)| Frame { page: entry.0, input: entry.1@ })
            .push(Frame { page: self.current, input: self.text_input@ })
    }
}

impl Navigation {
    /// Every state holds a page.
    pub proof fn lemma_never_empty(&self)
        ensures
            self@.len() >= 1,
    {
    }

    /// The state at the start: the root page alone, its field empty.
    pub fn new(root: Page) -> (navigation: Navigation)
        ensures
            navigation@ == initial(root),
    {
        Navigation { beneath: Vec::new(), current: root, text_input: String::new() }
    }

    /// Opens `page` on top of the current page, whose text is kept for the
    /// return to it. The field of the new page is empty.
    pub fn push(&mut self, page: Page)
        ensures
            final(self)@ == pushed(old(self)@, page),
    {
        let mut left_behind = String::new();
        std::mem::swap(&mut left_behind, &mut self.text_input);
        self.beneath.push((self.current, left_behind));
        self.current = page;
    }

    /// Leaves the current page for the one beneath it and gives the field
    /// the text which that page had. Returns the page that was left. On the
    /// root page nothing changes and `None` is returned: whether to quit
    /// then is the caller's decision.
    pub fn pop(&mut self) -> (left: Option<Page>)
        ensures
            final(self)@ == popped(old(self)@),
            old(self)@.len() > 1 ==> left == Some(old(self)@.last().page),
            old(self)@.len() == 1 ==> left.is_none() && final(self)@ == old(self)@,
    {
        match self.beneath.pop() {
            Some((page, text)) => {
                let left = self.current;
                self.current = page;
                self.text_input = text;
                Some(left)
            },
            None => None,
        }
    }

    /// Puts `page` in the place of the current page. Its field is empty.
    pub fn replace(&mut self, page: Page)
        ensures
            final(self)@ == replaced(old(self)@, page),
    {
        self.current = page;
        self.text_input = String::new();
    }

    /// Takes one step.
    pub fn apply(&mut self, transition: Transition)
        ensures
            final(self)@ == step(old(self)@, transition),
    {
        match transition {
            Transition::Push(page) => self.push(page),
            Transition::Pop => {
                self.pop();
            },
            Transition::Replace(page) => self.replace(page),
            Transition::SetInput(text) => self.set_input(text.as_str()),
        }
    }

    /// The page on top.
    pub fn current_page(&self) -> (page: &Page)
        ensures
            *page == self@.last().page,
    {
        &self.current
    }

    /// Puts `text` in the field of the current page.
    pub fn set_input(&mut self, text: &str)
        ensures
            final(self)@ == typed(old(self)@, text@),
    {
        self.text_input = String::from_str(text);
    }

    /// The text in the field of the current page.
    pub fn input(&self) -> (text: &str)
        ensures
            text@ == self@.last().input,
    {
        self.text_input.as_str()
    }

    /// How many pages lie beneath the current one: 0 on the root page.
    pub fn depth(&self) -> (depth: usize)
        ensures
            depth == self@.len() - 1,
    {
        self.beneath.len()
    }
}

/// No run of steps empties the stack.
pub proof fn lemma_run_keeps_a_page(stack: Seq<Frame>, transitions: Seq<Transition>)
    requires
        stack.len() >= 1,
    ensures
        run(stack, transitions).len() >= 1,
    decreases transitions.len(),
{
    if transitions.len() > 0 {
        lemma_run_keeps_a_page(step(stack, transitions.first()), transitions.drop_first());
    }
}

/// From the start on, whatever steps are taken, there is a page on top.
pub proof fn lemma_root_survives(root: Page, transitions: Seq<Transition>)
    ensures
        run(initial(root), transitions).len() >= 1,
{
    lemma_run_keeps_a_page(initial(root), transitions);
}

/// The page at the bottom stays the same page for as long as no page is put
/// in the place of another: opening pages, leaving them and typing never
/// touch it.
pub proof fn lemma_root_stays(stack: Seq<Frame>, transitions: Seq<Transition>)
    requires
        stack.len() >= 1,
        forall|i: int| 0 <= i < transitions.len() ==> !(#[trigger] transitions[i] is Replace),
    ensures
        run(stack, transitions).len() >= 1,
        run(stack, transitions).first().page == stack.first().page,
    decreases transitions.len(),
{
    if transitions.len() > 0 {
        let rest = transitions.drop_first();
        assert(!(transitions[0] is Replace));
        assert forall|i: int| 0 <= i < rest.len() implies !(#[trigger] rest[i] is Replace) by {
            assert(rest[i] == transitions[i + 1]);
        }
        lemma_root_stays(step(stack, transitions.first()), rest);
    }
}

/// A page that is opened starts with an empty field, and the way back
/// restores the page beneath with the very text it had, whatever was typed
/// in between.
pub proof fn lemma_return_restores(stack: Seq<Frame>, page: Page, text: Seq<char>)
    requires
        stack.len() >= 1,
    ensures
        pushed(stack, page).last().input == Seq::<char>::empty(),
        popped(pushed(stack, page)) == stack,
        popped(typed(pushed(stack, page), text)) == stack,
{
}

} // verus!
