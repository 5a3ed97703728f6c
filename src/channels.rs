use vstd::prelude::*;

verus! {

/// A request to the viewer from another component.
#[derive(Clone, Copy, Debug, PartialEq, Eq, Structural)]
pub enum ViewerCommand {
    NextView,
    PrevView,
    Quit,
}

/// A notice from the viewer to other components.
#[derive(Clone, Copy, Debug, PartialEq, Eq, Structural)]
pub enum ViewerMessage {
    ViewChanged(usize),
    Quit,
}

/// First-in first-out queue of messages.
pub struct MessageQueue<T> {
    items: Vec<T>,
}

impl<T> MessageQueue<T> {
    pub closed spec fn view(&self) -> Seq<T> {
        self.items@
    }

    pub fn new() -> (r: MessageQueue<T>)
        ensures
            r@ == Seq::<T>::empty(),
    {
        MessageQueue { items: Vec::new() }
    }

    /// Appends `item` at the back.
    pub fn send(&mut self, item: T)
        ensures
            final(self)@ == old(self)@.push(item),
    {
        self.items.push(item);
    }

    /// Takes the oldest item, if any.
    pub fn recv(&mut self) -> (r: Option<T>)
        ensures
            old(self)@.len() == 0 ==> r is None && final(self)@ == old(self)@,
            old(self)@.len() > 0 ==> r == Some(old(self)@[0]) && final(self)@ == old(
                self,
            )@.drop_first(),
    {
        if self.items.len() == 0 {
            None
        } else {
            Some(self.items.remove(0))
        }
    }

    pub fn len(&self) -> (r: usize)
        ensures
            r == self@.len(),
    {
        self.items.len()
    }

    pub fn is_empty(&self) -> (r: bool)
        ensures
            r == (self@.len() == 0),
    {
        self.items.len() == 0
    }
}

/// The command and message queues of the viewer.
pub struct ViewerChannels {
    pub commands: MessageQueue<ViewerCommand>,
    pub messages: MessageQueue<ViewerMessage>,
}

/// A fresh pair of empty queues, handed by the entry point to whichever
/// component needs them.
pub fn get_viewer_channels() -> (r: ViewerChannels)
    ensures
        r.commands@.len() == 0,
        r.messages@.len() == 0,
{
    ViewerChannels { commands: MessageQueue::new(), messages: MessageQueue::new() }
}

} // verus!
