//! What every handler shares: the settings, the telemt backend and runtime,
//! and the facts read from the sender of a message.

use std::sync::Arc;

use vstd::prelude::*;

use crate::config::Config;
use crate::runtime::TelemtRuntime;
use crate::telemt::TelemtBackend;
use crate::text::{lit, push_str, str_chars, trim, trim_chars};

verus! {

/// The shared state of the bot's handlers.
#[derive(Clone)]
pub struct BotState {
    pub config: Arc<Config>,
    pub telemt_backend: TelemtBackend,
    pub telemt_runtime: TelemtRuntime,
    pub bot_username: Option<String>,
}

/// The name shown for a sender: the first name, then the last name after a
/// space when it holds more than whitespace.
pub open spec fn full_name(first_name: Seq<char>, last_name: Option<Seq<char>>) -> Seq<char> {
    match last_name {
        Some(l) => if trim(l).len() > 0 {
            first_name + " "@ + l
        } else {
            first_name
        },
        None => first_name,
    }
}

/// The display name of a message's sender, from the names Telegram gives.
pub fn sender_display_name(first_name: &str, last_name: Option<&str>) -> (r: String)
    ensures
        r@ == full_name(
            first_name@,
            match last_name {
                Some(l) => Some(l@),
                None => None,
            },
        ),
{
    let mut s = lit(first_name);
    if let Some(l) = last_name {
        let v = str_chars(l);
        let t = trim_chars(v.as_slice());
        if t.len() > 0 {
            push_str(&mut s, " ");
            push_str(&mut s, l);
        }
    }
    s
}

/// Whether a message comes from an administrator: its sender is known and is
/// listed in the settings.
pub fn is_admin_message(sender_user_id: Option<i64>, state: &BotState) -> (r: bool)
    ensures
        r == match sender_user_id {
            Some(id) => state.config.admin_ids@.contains(id),
            None => false,
        },
{
    match sender_user_id {
        Some(id) => state.config.is_admin(id),
        None => false,
    }
}

} // verus!
