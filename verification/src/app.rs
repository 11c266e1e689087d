//! The session state machine: decoded key presses become navigation
//! commands or exit, the selection moves over the immutable catalog, and
//! the render step reads the selected snapshot back. The blocking input
//! read and the terminal drawing stand outside the library and only
//! exchange the plain values declared here.

use vstd::prelude::*;

use crate::data::LayerInfo;
use crate::layer_list::LayerList;

verus! {

/// One decoded input event. The boundary that reads the terminal maps a
/// key-press event to one of the first three variants and everything else
/// (unrecognized keys, key-release and repeat events, non-key events) to
/// `Other`.
#[derive(Clone, Copy, Debug)]
pub enum Key {
    Char(char),
    Down,
    Up,
    Other,
}

/// What the session does with one input event.
#[derive(Clone, Copy, Debug)]
pub enum Command {
    Quit,
    NextLayer,
    PreviousLayer,
    Ignore,
}

/// The key binding: `q` quits, `j` and the down arrow select the next
/// layer, `k` and the up arrow select the previous one, and every other
/// input is ignored.
pub open spec fn command_of_spec(key: Key) -> Command {
    match key {
        Key::Char(c) => if c == 'q' {
            Command::Quit
        } else if c == 'j' {
            Command::NextLayer
        } else if c == 'k' {
            Command::PreviousLayer
        } else {
            Command::Ignore
        },
        Key::Down => Command::NextLayer,
        Key::Up => Command::PreviousLayer,
        Key::Other => Command::Ignore,
    }
}

/// Decodes one input event into the command the session will apply.
pub fn command_for_key(key: Key) -> (r: Command)
    ensures
        r == command_of_spec(key),
{
    match key {
        Key::Char(c) => if c == 'q' {
            Command::Quit
        } else if c == 'j' {
            Command::NextLayer
        } else if c == 'k' {
            Command::PreviousLayer
        } else {
            Command::Ignore
        },
        Key::Down => Command::NextLayer,
        Key::Up => Command::PreviousLayer,
        Key::Other => Command::Ignore,
    }
}

/// Why the dataset could not be opened; the only failure that ends the
/// session before it begins.
#[derive(Debug)]
pub struct OpenError {
    pub message: String,
}

impl Clone for OpenError {
    fn clone(&self) -> (r: OpenError)
        ensures
            r == *self,
    {
        OpenError { message: self.message.clone() }
    }
}

/// The whole per-session state: the catalog with its selection cursor,
/// and whether the user has asked to leave. The machine has two states,
/// running (`!exit`) and exited (`exit`), and only the quit command moves
/// it to the second.
#[derive(Debug)]
pub struct App {
    pub layer_list: LayerList,
    pub exit: bool,
}

impl App {
    pub open spec fn wf(self) -> bool {
        self.layer_list.wf()
    }

    /// A running session over a freshly derived catalog, standing on the
    /// first layer.
    pub fn new(layer_info: Vec<LayerInfo>) -> (r: App)
        ensures
            r.wf(),
            r.layer_list.items == layer_info,
            r.layer_list.state.index == 0,
            !r.exit,
    {
        App { layer_list: LayerList::new(layer_info), exit: false }
    }

    fn exit(&mut self)
        ensures
            *final(self) == (App { exit: true, ..*old(self) }),
    {
        self.exit = true;
    }

    /// One transition of the state machine: the event's command is
    /// applied and nothing else changes. Quitting keeps the catalog and
    /// cursor; navigation keeps the running state and the catalog and
    /// moves only the cursor; everything else is a self-loop.
    pub fn handle_key_event(&mut self, key: Key)
        requires
            old(self).wf(),
        ensures
            final(self).wf(),
            match command_of_spec(key) {
                Command::Quit => final(self).exit && final(self).layer_list == old(
                    self,
                ).layer_list,
                Command::NextLayer => final(self).exit == old(self).exit
                    && LayerList::advanced_spec(old(self).layer_list, final(self).layer_list),
                Command::PreviousLayer => final(self).exit == old(self).exit
                    && LayerList::retreated_spec(old(self).layer_list, final(self).layer_list),
                Command::Ignore => *final(self) == *old(self),
            },
    {
        match command_for_key(key) {
            Command::Quit => self.exit(),
            Command::NextLayer => self.layer_list.next(),
            Command::PreviousLayer => self.layer_list.previous(),
            Command::Ignore => (),
        }
    }

    /// Whether the session has reached its terminal state and the input
    /// loop should stop.
    pub fn should_exit(&self) -> (r: bool)
        ensures
            r == self.exit,
    {
        self.exit
    }

    /// The snapshot the render step details: the one under the cursor,
    /// absent exactly when the catalog is empty.
    pub fn selected_layer(&self) -> (r: Option<&LayerInfo>)
        requires
            self.wf(),
        ensures
            self.layer_list.items@.len() > 0 ==> (r matches Option::Some(li) && *li
                == self.layer_list.items@[self.layer_list.state.index as int]),
            self.layer_list.items@.len() == 0 ==> r is None,
    {
        match self.layer_list.selected() {
            Option::Some(i) => Option::Some(&self.layer_list.items[i]),
            Option::None => Option::None,
        }
    }

    /// The names the list panel shows, one per layer, in catalog order.
    pub fn layer_names(&self) -> (r: Vec<String>)
        ensures
            r@.len() == self.layer_list.items@.len(),
            forall|i: int|
                0 <= i < r@.len() ==> #[trigger] r@[i]@ == self.layer_list.items@[i].name@,
    {
        let mut out: Vec<String> = Vec::new();
        let mut i: usize = 0;
        while i < self.layer_list.items.len()
            invariant
                i <= self.layer_list.items@.len(),
                out@.len() == i,
                forall|j: int|
                    0 <= j < i ==> #[trigger] out@[j]@ == self.layer_list.items@[j].name@,
            decreases self.layer_list.items@.len() - i,
        {
            out.push(self.layer_list.items[i].name.clone());
            i = i + 1;
        }
        out
    }
}

/// Builds the session from the catalog loader's outcome. An opening
/// failure is the only hard failure: it crosses unchanged, and no session
/// state exists downstream of it, so nothing is ever rendered for it. A
/// successful load yields the initial running session over exactly the
/// loaded catalog.
pub fn start(loaded: Result<Vec<LayerInfo>, OpenError>) -> (r: Result<App, OpenError>)
    ensures
        loaded is Err <==> r is Err,
        (loaded matches Result::Ok(infos) ==> (r matches Result::Ok(app) && app.wf()
            && app.layer_list.items == infos && app.layer_list.state.index == 0 && !app.exit)),
        (loaded matches Result::Err(e) ==> (r matches Result::Err(out) && out == e)),
{
    match loaded {
        Result::Ok(infos) => Result::Ok(App::new(infos)),
        Result::Err(e) => Result::Err(e),
    }
}

} // verus!
