//! The editor shell's message loop, reduced to its decisions: messages
//! arrive in a mailbox that the window layer fills, and one update drains
//! them and folds them into the editor's state.

use vstd::prelude::*;

verus! {

/// What the window layer can ask of the editor.
#[derive(Debug, Clone, PartialEq, Eq, Structural)]
pub enum Message {
    /// Shut the editor down; `force` skips confirmation.
    Exit { force: bool },
}

/// The editor's state: its pending mailbox and whether it should exit.
pub struct Editor {
    /// Messages posted since the last update, oldest first.
    pub pending: Vec<Message>,
    /// Whether an exit was requested.
    pub exit: bool,
}

/// Whether a batch of messages asks for an exit.
pub open spec fn any_exit(msgs: Seq<Message>) -> bool {
    exists|i: int| 0 <= i < msgs.len() && msgs[i] is Exit
}

impl Editor {
    /// A fresh editor: empty mailbox, not exiting.
    pub fn new() -> (r: Editor)
        ensures
            r.pending@ == Seq::<Message>::empty(),
            r.exit == false,
    {
        Editor { pending: Vec::new(), exit: false }
    }

    /// Puts one message into the mailbox, behind the ones already pending.
    pub fn post(&mut self, message: Message)
        ensures
            final(self).pending@ == old(self).pending@.push(message),
            final(self).exit == old(self).exit,
    {
        self.pending.push(message);
    }

    /// Drains the mailbox and folds every message into the editor's state:
    /// the editor exits exactly when it was already exiting or some pending
    /// message asked for an exit.
    pub fn update(&mut self)
        ensures
            final(self).pending@ == Seq::<Message>::empty(),
            final(self).exit == (old(self).exit || any_exit(old(self).pending@)),
    {
        let n = self.pending.len();
        for i in 0..n
            invariant
                n == self.pending@.len(),
                self.pending@ == old(self).pending@,
                self.exit == (old(self).exit || any_exit(old(self).pending@.take(i as int))),
        {
            match self.pending[i] {
                Message::Exit { force: _ } => {
                    self.exit = true;
                },
            }
            proof {
                assert(old(self).pending@.take(i + 1).drop_last() == old(self).pending@.take(
                    i as int,
                ));
                assert(any_exit(old(self).pending@.take(i + 1))) by {
                    assert(old(self).pending@.take(i + 1).last() == old(self).pending@[i as int]);
                }
            }
        }
        proof {
            assert(old(self).pending@.take(n as int) == old(self).pending@);
        }
        self.pending.clear();
    }
}

} // verus!
