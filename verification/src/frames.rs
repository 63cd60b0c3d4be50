//! The wire commands of the low-level protocol: the frames that the
//! sequencer hands to a transport, and their reading by a transport that
//! has to act on them.

use crate::text::{same_text, utf8_text};
use vstd::prelude::*;
use vstd::slice::slice_to_vec;
use vstd::string::StrSliceExecFns;
use vstd::string::StringExecFns;
use vstd::utf8::{decode_utf8, encode_utf8, valid_utf8};

verus! {

/// A command as it goes over the wire. The altitude of a takeoff is
/// carried as the decimal text that the frame holds, in metres.
#[derive(Clone, Debug, PartialEq, Eq)]
pub enum WireCommand {
    Arm,
    Takeoff(String),
    Land,
    Status,
}

/// A wire command as contracts speak of it.
pub enum CommandView {
    Arm,
    Takeoff(Seq<char>),
    Land,
    Status,
}

impl View for WireCommand {
    type V = CommandView;

    open spec fn view(&self) -> CommandView {
        match *self {
            WireCommand::Arm => CommandView::Arm,
            WireCommand::Takeoff(altitude) => CommandView::Takeoff(altitude@),
            WireCommand::Land => CommandView::Land,
            WireCommand::Status => CommandView::Status,
        }
    }
}

/// The text of the frame for `command`.
pub open spec fn frame_text(command: CommandView) -> Seq<char> {
    match command {
        CommandView::Arm => "ARM"@,
        CommandView::Takeoff(altitude) => "TAKEOFF:"@ + altitude,
        CommandView::Land => "LAND"@,
        CommandView::Status => "STATUS"@,
    }
}

/// The frame for `command`: its text in UTF-8.
pub open spec fn frame_of(command: CommandView) -> Seq<u8> {
    encode_utf8(frame_text(command))
}

/// The command that a frame with the text `text` stands for, if any.
pub open spec fn command_of_text(text: Seq<char>) -> Option<CommandView> {
    if text == "ARM"@ {
        Some(CommandView::Arm)
    } else if text == "LAND"@ {
        Some(CommandView::Land)
    } else if text == "STATUS"@ {
        Some(CommandView::Status)
    } else if text.len() >= 8 && text.subrange(0, 8) == "TAKEOFF:"@ {
        Some(CommandView::Takeoff(text.subrange(8, text.len() as int)))
    } else {
        None
    }
}

/// The command that `frame` stands for, if any. A frame that is not
/// well-formed UTF-8 stands for none.
pub open spec fn command_of(frame: Seq<u8>) -> Option<CommandView> {
    if valid_utf8(frame) {
        command_of_text(decode_utf8(frame))
    } else {
        None
    }
}

impl WireCommand {
    /// The text of the command's frame.
    pub fn text(&self) -> (r: String)
        ensures
            r@ == frame_text(self@),
    {
        match self {
            WireCommand::Arm => String::from_str("ARM"),
            WireCommand::Takeoff(altitude) => {
                let mut text = String::from_str("TAKEOFF:");
                text.append(altitude.as_str());
                text
            },
            WireCommand::Land => String::from_str("LAND"),
            WireCommand::Status => String::from_str("STATUS"),
        }
    }

    /// The command's frame.
    pub fn encode(&self) -> (r: Vec<u8>)
        ensures
            r@ == frame_of(self@),
    {
        let text = self.text();
        slice_to_vec(text.as_str().as_bytes())
    }

    /// Reads a frame back into the command it stands for.
    pub fn parse(frame: &[u8]) -> (r: Option<WireCommand>)
        ensures
            match r {
                Some(command) => command_of(frame@) == Some(command@),
                None => command_of(frame@) is None,
            },
    {
        let text = match utf8_text(frame) {
            Some(text) => text,
            None => {
                return None;
            },
        };
        if same_text(text, "ARM") {
            Some(WireCommand::Arm)
        } else if same_text(text, "LAND") {
            Some(WireCommand::Land)
        } else if same_text(text, "STATUS") {
            Some(WireCommand::Status)
        } else {
            let len = text.unicode_len();
            if len >= 8 && same_text(text.substring_char(0, 8), "TAKEOFF:") {
                Some(WireCommand::Takeoff(String::from_str(text.substring_char(8, len))))
            } else {
                None
            }
        }
    }
}

/// No command has an empty frame.
pub proof fn lemma_frame_is_not_empty(command: CommandView)
    ensures
        frame_of(command).len() > 0,
{
    let text = frame_text(command);
    reveal_strlit("ARM");
    reveal_strlit("LAND");
    reveal_strlit("STATUS");
    reveal_strlit("TAKEOFF:");
    assert(text.len() > 0);
    vstd::utf8::encode_utf8_decode_utf8(text);
    if encode_utf8(text).len() == 0 {
        assert(decode_utf8(encode_utf8(text)).len() == 0);
    }
}

/// Reading the frame of a command gives the command back.
pub proof fn lemma_frame_round_trip(command: CommandView)
    ensures
        command_of(frame_of(command)) == Some(command),
{
    let text = frame_text(command);
    vstd::utf8::encode_utf8_valid_utf8(text);
    vstd::utf8::encode_utf8_decode_utf8(text);
    reveal_strlit("ARM");
    reveal_strlit("LAND");
    reveal_strlit("STATUS");
    reveal_strlit("TAKEOFF:");
    match command {
        CommandView::Takeoff(altitude) => {
            assert(text.len() >= 8);
            assert(text.subrange(0, 8) =~= "TAKEOFF:"@);
            assert(text.subrange(8, text.len() as int) =~= altitude);
        },
        _ => {},
    }
}

/// No frame stands for two commands: frames that read as the same command
/// hold the same text.
pub proof fn lemma_frame_text_determines(a: CommandView, b: CommandView)
    requires
        frame_text(a) == frame_text(b),
    ensures
        a == b,
{
    vstd::utf8::encode_utf8_valid_utf8(frame_text(a));
    lemma_frame_round_trip(a);
    lemma_frame_round_trip(b);
}

} // verus!
