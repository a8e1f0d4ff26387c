//! Recognizing which command a frame carries.

use crate::cmd::announce::{announce_frame, announce_from_parts, announce_kinds, Announce, AnnounceView};
use crate::cmd::broadcast::{broadcast_frame, broadcast_from_parts, broadcast_kinds, Broadcast, BroadcastView};
use crate::cmd::deliver::{deliver_frame, deliver_from_parts, deliver_kinds, Deliver, DeliverView};
use crate::cmd::extension::{
    extension_frame, extension_from_parts, extension_kinds, Extension, ExtensionView,
};
use crate::cmd::ping::{ping_frame, ping_from_parts, ping_kinds, Ping, PingView};
use crate::cmd::pong::{pong_frame, pong_from_parts, pong_kinds, Pong, PongView};
use crate::cmd::register::{register_frame, register_from_parts, register_kinds, Register, RegisterView};
use crate::cmd::say::{say_frame, say_from_parts, say_kinds, Say, SayView};
use crate::cmd::whisper::{whisper_frame, whisper_from_parts, whisper_kinds, Whisper, WhisperView};
use crate::frame::{Bing2BingFrame, FrameView};
use crate::parser::{fields_error, prefix_error, ParseError, Parser};
use crate::text::{chars_of, str_equal};
use vstd::prelude::*;

verus! {

/// A command received from the network.
#[derive(Debug)]
pub enum Bing2BingCommand {
    Ping(Ping),
    Pong(Pong),
    Say(Say),
    Announce(Announce),
    Broadcast(Broadcast),
    Deliver(Deliver),
    Whisper(Whisper),
    Extension(Extension),
    Register(Register),
    /// A well-formed frame whose tag names no known command.
    Unknown,
}

/// The value of a [`Bing2BingCommand`].
pub enum CommandView {
    Ping(PingView),
    Pong(PongView),
    Say(SayView),
    Announce(AnnounceView),
    Broadcast(BroadcastView),
    Deliver(DeliverView),
    Whisper(WhisperView),
    Extension(ExtensionView),
    Register(RegisterView),
    Unknown,
}

impl View for Bing2BingCommand {
    type V = CommandView;

    open spec fn view(&self) -> CommandView {
        match self {
            Bing2BingCommand::Ping(c) => CommandView::Ping(c@),
            Bing2BingCommand::Pong(c) => CommandView::Pong(c@),
            Bing2BingCommand::Say(c) => CommandView::Say(c@),
            Bing2BingCommand::Announce(c) => CommandView::Announce(c@),
            Bing2BingCommand::Broadcast(c) => CommandView::Broadcast(c@),
            Bing2BingCommand::Deliver(c) => CommandView::Deliver(c@),
            Bing2BingCommand::Whisper(c) => CommandView::Whisper(c@),
            Bing2BingCommand::Extension(c) => CommandView::Extension(c@),
            Bing2BingCommand::Register(c) => CommandView::Register(c@),
            Bing2BingCommand::Unknown => CommandView::Unknown,
        }
    }
}

/// The command that the parts after a known tag describe, or the error met.
pub open spec fn decode_fields(
    err: Option<ParseError>,
    cmd: CommandView,
) -> Result<CommandView, ParseError> {
    match err {
        Some(e) => Err(e),
        None => Ok(cmd),
    }
}

/// Which command a frame carries: an `Array` whose first part is a `Text`
/// tag, followed by the fields of the tagged command.  A tag that names no
/// command gives `Unknown`.
pub open spec fn decode_command(f: FrameView) -> Result<CommandView, ParseError> {
    match f {
        FrameView::Array(p) => if p.len() == 0 {
            Err(ParseError::EndOfStream)
        } else if !(p[0] is Text) {
            Err(ParseError::UnexpectedFrame)
        } else {
            let tag = p[0]->Text_0;
            let rest = p.drop_first();
            if tag == "ping"@ {
                decode_fields(fields_error(ping_kinds(), rest), CommandView::Ping(ping_from_parts(rest)))
            } else if tag == "pong"@ {
                decode_fields(fields_error(pong_kinds(), rest), CommandView::Pong(pong_from_parts(rest)))
            } else if tag == "say"@ {
                decode_fields(fields_error(say_kinds(), rest), CommandView::Say(say_from_parts(rest)))
            } else if tag == "announce"@ {
                decode_fields(
                    prefix_error(announce_kinds(), rest),
                    CommandView::Announce(announce_from_parts(rest)),
                )
            } else if tag == "broadcast"@ {
                decode_fields(
                    fields_error(broadcast_kinds(), rest),
                    CommandView::Broadcast(broadcast_from_parts(rest)),
                )
            } else if tag == "deliver"@ {
                decode_fields(
                    fields_error(deliver_kinds(), rest),
                    CommandView::Deliver(deliver_from_parts(rest)),
                )
            } else if tag == "whisper"@ {
                decode_fields(
                    fields_error(whisper_kinds(), rest),
                    CommandView::Whisper(whisper_from_parts(rest)),
                )
            } else if tag == "extension"@ {
                decode_fields(
                    fields_error(extension_kinds(), rest),
                    CommandView::Extension(extension_from_parts(rest)),
                )
            } else if tag == "register"@ {
                decode_fields(
                    fields_error(register_kinds(), rest),
                    CommandView::Register(register_from_parts(rest)),
                )
            } else {
                Ok(CommandView::Unknown)
            }
        },
        _ => Err(ParseError::NotAnArray),
    }
}

/// The view of a decoding outcome.
pub open spec fn outcome_view(r: Result<Bing2BingCommand, ParseError>) -> Result<
    CommandView,
    ParseError,
> {
    match r {
        Ok(c) => Ok(c@),
        Err(e) => Err(e),
    }
}

/// Decoding the frame that carries a ping gives back that ping.
pub proof fn lemma_ping_round_trip(c: PingView)
    ensures
        decode_command(ping_frame(c)) == Ok::<CommandView, ParseError>(CommandView::Ping(c)),
{
    reveal_strlit("ping");
    let rest = ping_frame(c)->Array_0.drop_first();
    reveal_with_fuel(fields_error, 5);
    assert(ping_from_parts(rest) == c);
}

/// Decoding the frame that carries a pong gives back that pong.
pub proof fn lemma_pong_round_trip(c: PongView)
    ensures
        decode_command(pong_frame(c)) == Ok::<CommandView, ParseError>(CommandView::Pong(c)),
{
    reveal_strlit("ping");
    reveal_strlit("pong");
    assert("pong"@[1] != "ping"@[1]);
    let rest = pong_frame(c)->Array_0.drop_first();
    reveal_with_fuel(fields_error, 5);
    assert(pong_from_parts(rest) == c);
}

/// Decoding the frame that carries a say gives back that say.
pub proof fn lemma_say_round_trip(c: SayView)
    ensures
        decode_command(say_frame(c)) == Ok::<CommandView, ParseError>(CommandView::Say(c)),
{
    reveal_strlit("ping");
    reveal_strlit("pong");
    reveal_strlit("say");
    assert("say"@.len() != "ping"@.len());
    assert("say"@.len() != "pong"@.len());
    let rest = say_frame(c)->Array_0.drop_first();
    reveal_with_fuel(fields_error, 4);
    assert(say_from_parts(rest) == c);
}

/// Decoding the frame that carries a broadcast gives back that broadcast.
pub proof fn lemma_broadcast_round_trip(c: BroadcastView)
    ensures
        decode_command(broadcast_frame(c)) == Ok::<CommandView, ParseError>(CommandView::Broadcast(c)),
{
    reveal_strlit("ping");
    reveal_strlit("pong");
    reveal_strlit("say");
    reveal_strlit("announce");
    reveal_strlit("broadcast");
    assert("broadcast"@.len() != "ping"@.len());
    assert("broadcast"@.len() != "pong"@.len());
    assert("broadcast"@.len() != "say"@.len());
    assert("broadcast"@.len() != "announce"@.len());
    let rest = broadcast_frame(c)->Array_0.drop_first();
    reveal_with_fuel(fields_error, 4);
    assert(broadcast_from_parts(rest) == c);
}

/// Decoding the frame that carries a deliver gives back that deliver.
pub proof fn lemma_deliver_round_trip(c: DeliverView)
    ensures
        decode_command(deliver_frame(c)) == Ok::<CommandView, ParseError>(CommandView::Deliver(c)),
{
    reveal_strlit("ping");
    reveal_strlit("pong");
    reveal_strlit("say");
    reveal_strlit("announce");
    reveal_strlit("broadcast");
    reveal_strlit("deliver");
    assert("deliver"@.len() != "ping"@.len());
    assert("deliver"@.len() != "pong"@.len());
    assert("deliver"@.len() != "say"@.len());
    assert("deliver"@.len() != "announce"@.len());
    assert("deliver"@.len() != "broadcast"@.len());
    let rest = deliver_frame(c)->Array_0.drop_first();
    reveal_with_fuel(fields_error, 5);
    assert(deliver_from_parts(rest) == c);
}

/// Decoding the frame that carries a whisper gives back that whisper.
pub proof fn lemma_whisper_round_trip(c: WhisperView)
    ensures
        decode_command(whisper_frame(c)) == Ok::<CommandView, ParseError>(CommandView::Whisper(c)),
{
    reveal_strlit("ping");
    reveal_strlit("pong");
    reveal_strlit("say");
    reveal_strlit("announce");
    reveal_strlit("broadcast");
    reveal_strlit("deliver");
    reveal_strlit("whisper");
    assert("whisper"@.len() != "ping"@.len());
    assert("whisper"@.len() != "pong"@.len());
    assert("whisper"@.len() != "say"@.len());
    assert("whisper"@.len() != "announce"@.len());
    assert("whisper"@.len() != "broadcast"@.len());
    assert("whisper"@[0] != "deliver"@[0]);
    let rest = whisper_frame(c)->Array_0.drop_first();
    reveal_with_fuel(fields_error, 5);
    assert(whisper_from_parts(rest) == c);
}

/// Decoding the frame that carries a extension gives back that extension.
pub proof fn lemma_extension_round_trip(c: ExtensionView)
    ensures
        decode_command(extension_frame(c)) == Ok::<CommandView, ParseError>(CommandView::Extension(c)),
{
    reveal_strlit("ping");
    reveal_strlit("pong");
    reveal_strlit("say");
    reveal_strlit("announce");
    reveal_strlit("broadcast");
    reveal_strlit("deliver");
    reveal_strlit("whisper");
    reveal_strlit("extension");
    assert("extension"@.len() != "ping"@.len());
    assert("extension"@.len() != "pong"@.len());
    assert("extension"@.len() != "say"@.len());
    assert("extension"@.len() != "announce"@.len());
    assert("extension"@[0] != "broadcast"@[0]);
    assert("extension"@.len() != "deliver"@.len());
    assert("extension"@.len() != "whisper"@.len());
    let rest = extension_frame(c)->Array_0.drop_first();
    reveal_with_fuel(fields_error, 5);
    assert(extension_from_parts(rest) == c);
}

/// Decoding the frame that carries a register gives back that register.
pub proof fn lemma_register_round_trip(c: RegisterView)
    ensures
        decode_command(register_frame(c)) == Ok::<CommandView, ParseError>(CommandView::Register(c)),
{
    reveal_strlit("ping");
    reveal_strlit("pong");
    reveal_strlit("say");
    reveal_strlit("announce");
    reveal_strlit("broadcast");
    reveal_strlit("deliver");
    reveal_strlit("whisper");
    reveal_strlit("extension");
    reveal_strlit("register");
    assert("register"@.len() != "ping"@.len());
    assert("register"@.len() != "pong"@.len());
    assert("register"@.len() != "say"@.len());
    assert("register"@[0] != "announce"@[0]);
    assert("register"@.len() != "broadcast"@.len());
    assert("register"@.len() != "deliver"@.len());
    assert("register"@.len() != "whisper"@.len());
    assert("register"@.len() != "extension"@.len());
    let rest = register_frame(c)->Array_0.drop_first();
    reveal_with_fuel(fields_error, 5);
    assert(register_from_parts(rest) == c);
}

/// Decoding the frame that carries an announcement gives back that announcement.
pub proof fn lemma_announce_round_trip(c: AnnounceView)
    ensures
        decode_command(announce_frame(c)) == Ok::<CommandView, ParseError>(CommandView::Announce(c)),
{
    reveal_strlit("ping");
    reveal_strlit("pong");
    reveal_strlit("say");
    reveal_strlit("announce");
    assert("announce"@.len() != "ping"@.len());
    assert("announce"@.len() != "pong"@.len());
    assert("announce"@.len() != "say"@.len());
    let rest = announce_frame(c)->Array_0.drop_first();
    reveal_with_fuel(prefix_error, 3);
    assert(rest.skip(2) =~= c.details);
    assert(announce_from_parts(rest) == c);
}

impl Bing2BingCommand {
    /// Recognizes the command that `frame` carries.
    pub fn from_frame(frame: Bing2BingFrame) -> (r: Result<Bing2BingCommand, ParseError>)
        ensures
            outcome_view(r) == decode_command(frame@),
    {
        let mut parse = match Parser::new(frame) {
            Ok(p) => p,
            Err(e) => {
                return Err(e);
            },
        };
        let ghost p0 = parse@;
        let name = match parse.next_text() {
            Ok(s) => s,
            Err(e) => {
                return Err(e);
            },
        };
        assert(parse@ == p0.drop_first());
        let tag = chars_of(name.as_str());
        if str_equal(&tag, "ping") {
            match Ping::parse_frames(&mut parse) {
                Ok(c) => Ok(Bing2BingCommand::Ping(c)),
                Err(e) => Err(e),
            }
        } else if str_equal(&tag, "pong") {
            match Pong::parse_frames(&mut parse) {
                Ok(c) => Ok(Bing2BingCommand::Pong(c)),
                Err(e) => Err(e),
            }
        } else if str_equal(&tag, "say") {
            match Say::parse_frames(&mut parse) {
                Ok(c) => Ok(Bing2BingCommand::Say(c)),
                Err(e) => Err(e),
            }
        } else if str_equal(&tag, "announce") {
            match Announce::parse_frames(&mut parse) {
                Ok(c) => Ok(Bing2BingCommand::Announce(c)),
                Err(e) => Err(e),
            }
        } else if str_equal(&tag, "broadcast") {
            match Broadcast::parse_frames(&mut parse) {
                Ok(c) => Ok(Bing2BingCommand::Broadcast(c)),
                Err(e) => Err(e),
            }
        } else if str_equal(&tag, "deliver") {
            match Deliver::parse_frames(&mut parse) {
                Ok(c) => Ok(Bing2BingCommand::Deliver(c)),
                Err(e) => Err(e),
            }
        } else if str_equal(&tag, "whisper") {
            match Whisper::parse_frames(&mut parse) {
                Ok(c) => Ok(Bing2BingCommand::Whisper(c)),
                Err(e) => Err(e),
            }
        } else if str_equal(&tag, "extension") {
            match Extension::parse_frames(&mut parse) {
                Ok(c) => Ok(Bing2BingCommand::Extension(c)),
                Err(e) => Err(e),
            }
        } else if str_equal(&tag, "register") {
            match Register::parse_frames(&mut parse) {
                Ok(c) => Ok(Bing2BingCommand::Register(c)),
                Err(e) => Err(e),
            }
        } else {
            Ok(Bing2BingCommand::Unknown)
        }
    }
}

} // verus!
