//! The choices of the interactive loop: what is offered to the user after
//! each answer of the generator, and what follows from what the user picks.

use crate::scan::same_text;
use crate::text::{chars_of, texts};
use vstd::prelude::*;
use vstd::string::StringExecFns;

verus! {

/// The option to ask the generator again.
pub const REGENERATE_OPTION: &'static str = "🔄 Regenerate suggestions";

/// The option to leave without a commit.
pub const CANCEL_OPTION: &'static str = "❌ Cancel and exit";

/// The question after the generator failed.
pub const ASK_AFTER_FAILURE: &'static str = "AI failed. What would you like to do?";

/// The question after the generator gave no suggestion.
pub const ASK_AFTER_NOTHING: &'static str =
    "AI returned no suggestions. What would you like to do?";

/// The question with the suggestions.
pub const ASK_TO_SELECT: &'static str = "Select a commit message (or action):";

/// What the user is asked.
#[derive(Debug, Clone, PartialEq, Eq)]
pub struct Menu {
    /// The question.
    pub question: String,
    /// The answers to pick from.
    pub options: Vec<String>,
    /// Whether messages are among the options.
    pub offers_messages: bool,
}

/// What the user picked, or why nothing was picked.
#[derive(Debug, Clone, PartialEq, Eq)]
pub enum Picked {
    /// One of the options.
    Item(String),
    /// The user left the menu.
    Canceled,
    /// The menu could not be shown or read.
    Failed,
}

/// What the loop does next.
#[derive(Debug, Clone, PartialEq, Eq)]
pub enum Next {
    /// Ask the generator again.
    Regenerate,
    /// End without a message.
    Stop,
    /// End with this message.
    Use(String),
    /// End with the error of the menu.
    Fail,
}

/// The two options that every menu ends with.
pub open spec fn actions() -> Seq<Seq<char>> {
    seq![REGENERATE_OPTION@, CANCEL_OPTION@]
}

/// The menu after an answer of the generator: `None` stands for a failure.
/// Suggestions are offered before the two actions; without suggestions the
/// actions alone are.
pub fn menu_after(suggestions: Option<&Vec<String>>) -> (menu: Menu)
    ensures
        menu.question@ == (match suggestions {
            None => ASK_AFTER_FAILURE@,
            Some(s) => if s@.len() == 0 {
                ASK_AFTER_NOTHING@
            } else {
                ASK_TO_SELECT@
            },
        }),
        texts(menu.options@) == (match suggestions {
            None => actions(),
            Some(s) => texts(s@) + actions(),
        }),
        menu.offers_messages == (suggestions matches Some(s) && s@.len() > 0),
{
    let mut options: Vec<String> = Vec::new();
    let mut offers_messages = false;
    let question = match suggestions {
        None => String::from_str(ASK_AFTER_FAILURE),
        Some(s) => {
            let mut i: usize = 0;
            while i < s.len()
                invariant
                    i <= s@.len(),
                    texts(options@) == texts(s@).take(i as int),
                decreases s@.len() - i,
            {
                let ghost before = texts(options@);
                let item = s[i].clone();
                options.push(item);
                assert(texts(options@) =~= before.push(s@[i as int]@));
                i += 1;
            }
            if s.len() == 0 {
                String::from_str(ASK_AFTER_NOTHING)
            } else {
                offers_messages = true;
                String::from_str(ASK_TO_SELECT)
            }
        },
    };
    let ghost before = texts(options@);
    options.push(String::from_str(REGENERATE_OPTION));
    options.push(String::from_str(CANCEL_OPTION));
    assert(before + actions() =~= (match suggestions {
        None => actions(),
        Some(s) => texts(s@) + actions(),
    }));
    Menu { question, options, offers_messages }
}

/// What follows from what the user picked: to regenerate and to cancel are
/// the two actions; to leave the menu is to cancel; any other item is the
/// message to use. A menu without messages has no other item.
pub fn next_step(offers_messages: bool, picked: Picked) -> (next: Next)
    requires
        !offers_messages ==> (picked matches Picked::Item(item) ==> item@ == REGENERATE_OPTION@
            || item@ == CANCEL_OPTION@),
    ensures
        match picked {
            Picked::Item(item) => if item@ == REGENERATE_OPTION@ {
                next == Next::Regenerate
            } else if item@ == CANCEL_OPTION@ {
                next == Next::Stop
            } else {
                next matches Next::Use(message) && message@ == item@
            },
            Picked::Canceled => next == Next::Stop,
            Picked::Failed => next == Next::Fail,
        },
{
    match picked {
        Picked::Item(item) => {
            let chars = chars_of(item.as_str());
            if same_text(chars.as_slice(), REGENERATE_OPTION) {
                Next::Regenerate
            } else if same_text(chars.as_slice(), CANCEL_OPTION) {
                Next::Stop
            } else {
                Next::Use(item)
            }
        },
        Picked::Canceled => Next::Stop,
        Picked::Failed => Next::Fail,
    }
}

} // verus!
