//! The `register` command: a peer introduces itself to the tracker.

use crate::frame::{lemma_array_view, Bing2BingFrame, FrameView};
use crate::parser::{
    fields_consumed, fields_error, lemma_fields_skip, FieldKind, ParseError,
    Parser,
};
use vstd::prelude::*;

verus! {

broadcast use lemma_array_view;

/// A peer introducing itself to the tracker, with the address it listens on.
///
/// On the wire: `["register", name, sequence_number, ip_address, port]`.
#[derive(Debug)]
pub struct Register {
    /// The name of the peer.
    pub name: String,
    /// The sequence number the peer gave it.
    pub sequence_number: u64,
    /// The address the peer listens on.
    pub ip_address: String,
    /// The port the peer listens on, in decimal.
    pub port: String,
}

/// The value of a [`Register`].
pub struct RegisterView {
    pub name: Seq<char>,
    pub sequence_number: u64,
    pub ip_address: Seq<char>,
    pub port: Seq<char>,
}

impl View for Register {
    type V = RegisterView;

    open spec fn view(&self) -> RegisterView {
        RegisterView {
            name: self.name@,
            sequence_number: self.sequence_number,
            ip_address: self.ip_address@,
            port: self.port@,
        }
    }
}

/// The kinds of the parts that follow the `register` tag.
pub open spec fn register_kinds() -> Seq<FieldKind> {
    seq![FieldKind::Text, FieldKind::Number, FieldKind::Text, FieldKind::Text]
}

/// The register that well-formed parts (after the tag) describe.
pub open spec fn register_from_parts(p: Seq<FrameView>) -> RegisterView {
    RegisterView {
        name: p[0]->Text_0,
        sequence_number: p[1]->Number_0,
        ip_address: p[2]->Text_0,
        port: p[3]->Text_0,
    }
}

/// The frame that carries a register.
pub open spec fn register_frame(c: RegisterView) -> FrameView {
    FrameView::Array(
        seq![
            FrameView::Text("register"@),
            FrameView::Text(c.name),
            FrameView::Number(c.sequence_number),
            FrameView::Text(c.ip_address),
            FrameView::Text(c.port),
        ],
    )
}

impl Register {
    /// A registration of the peer `name` listening on `ip_address:port`.
    pub fn new(name: &str, sequence_number: u64, ip_address: &str, port: &str) -> (r: Self)
        ensures
            r@ == (RegisterView {
                name: name@,
                sequence_number: sequence_number,
                ip_address: ip_address@,
                port: port@,
            }),
    {
        Self {
            name: name.to_string(),
            sequence_number,
            ip_address: ip_address.to_string(),
            port: port.to_string(),
        }
    }

    /// The frame that carries this register.
    pub fn into_frame(self) -> (r: Bing2BingFrame)
        ensures
            r@ == register_frame(self@),
    {
        let ghost v = self@;
        let cmd = vec![
            Bing2BingFrame::Text("register".to_string()),
            Bing2BingFrame::Text(self.name),
            Bing2BingFrame::Number(self.sequence_number),
            Bing2BingFrame::Text(self.ip_address),
            Bing2BingFrame::Text(self.port),
        ];
        let r = Bing2BingFrame::Array(cmd);
        assert(r@->Array_0 =~= register_frame(v)->Array_0);
        r
    }

    /// Reads a register from the parts that follow the `register` tag.
    pub fn parse_frames(parse: &mut Parser) -> (r: Result<Register, ParseError>)
        ensures
            match fields_error(register_kinds(), old(parse)@) {
                Some(e) => r == Err::<Register, ParseError>(e),
                None => (r matches Ok(c) && c@ == register_from_parts(old(parse)@)),
            },
            final(parse)@ == old(parse)@.skip(fields_consumed(register_kinds(), old(parse)@)),
    {
        let ghost p0 = parse@;
        let ghost k = register_kinds();
        proof {
            lemma_fields_skip(k, p0, 0);
            assert(p0 =~= p0.skip(0));
        }
        let name = match parse.next_text() {
            Ok(x) => x,
            Err(e) => {
                return Err(e);
            },
        };
        proof {
            assert(parse@ =~= p0.skip(1));
            lemma_fields_skip(k, p0, 1);
        }
        let sequence_number = match parse.next_number() {
            Ok(x) => x,
            Err(e) => {
                return Err(e);
            },
        };
        proof {
            assert(parse@ =~= p0.skip(2));
            lemma_fields_skip(k, p0, 2);
        }
        let ip_address = match parse.next_text() {
            Ok(x) => x,
            Err(e) => {
                return Err(e);
            },
        };
        proof {
            assert(parse@ =~= p0.skip(3));
            lemma_fields_skip(k, p0, 3);
        }
        let port = match parse.next_text() {
            Ok(x) => x,
            Err(e) => {
                return Err(e);
            },
        };
        proof {
            assert(parse@ =~= p0.skip(4));
            lemma_fields_skip(k, p0, 4);
            assert(k.skip(4) =~= Seq::<FieldKind>::empty());
        }
        match parse.finish() {
            Ok(()) => {},
            Err(e) => {
                return Err(e);
            },
        }
        Ok(Register { name, sequence_number, ip_address, port })
    }

    /// The sequence number the sender gave this register.
    pub fn get_sequence_number(&self) -> (r: u64)
        ensures
            r == self.sequence_number,
    {
        self.sequence_number
    }

    /// The peer that sent this register.
    pub fn get_source(&self) -> (r: String)
        ensures
            r@ == self.name@,
    {
        self.name.clone()
    }
}

} // verus!
