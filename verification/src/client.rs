//! The connection and the transaction engine.
//!
//! A [`NanonisClient`] owns exactly one TCP socket. One call of
//! [`NanonisClient::transact`] performs one full command invocation: build
//! the fixed header and the encoded body, write once, and — when result
//! codes are expected — block for the response header, read exactly the
//! declared body length, surface a remote-reported error, and decode the
//! result fields. Exclusive access (`&mut self`) keeps one transaction in
//! flight per connection; nothing here retries, and a failed transaction
//! leaves the connection for the caller to re-establish.

use vstd::prelude::*;
use vstd::utf8::{encode_utf8, is_ascii_chars};

use crate::codec::{dec_list, dec_one, enc_list, enc_val, fits, list_encodable, views_of};
use crate::codes::TypeCode;
use crate::decode::{copy_bytes, decode_body, decode_value, lemma_dec_list_fits};
use crate::encode::{encode_body, push_u8s};
use crate::error::NanonisError;
use crate::net::{
    is_ip_address, parse_addr, sock_connect, sock_recv_exact, sock_send_all,
    sock_set_read_timeout, sock_set_write_timeout,
};
use crate::value::{NanonisValue, ValV};
use crate::wire::{be2, be4, push_be2, push_be4, read_be4};

pub mod atom_track;
pub mod beam_defl;
pub mod bias_spectr;
pub mod cpd_comp;
pub mod data_log;
pub mod dig_lines;
pub mod folme;
pub mod gen_pi_ctrl;
pub mod gen_swp;
pub mod hs_swp;
pub mod interf;
pub mod kelvin_ctrl;
pub mod laser;
pub mod lockin;
pub mod lockin_freq_swp;
pub mod marks;
pub mod mpass;
pub mod oc_sync;
pub mod osci_hr;
pub mod pattern;
pub mod pi_ctrl;
pub mod piezo;
pub mod pll;
pub mod pll_freq_swp;
pub mod pll_signal_anlzr;
pub mod scan;
pub mod script;
pub mod signal_chart;
pub mod spectrum_anlzr;
pub mod user_out;
pub mod util;
pub mod z_spectr;

verus! {

/// The width of the fixed ASCII command-name field of a message header.
pub const COMMAND_FIELD_LEN: usize = 32;

/// The total width of a message header: the command-name field, a 4-byte
/// big-endian body length, a 2-byte response-requested flag and a 2-byte
/// reserved field.
pub const HEADER_LEN: usize = 40;

/// A run of zero bytes.
pub open spec fn zeros(n: nat) -> Seq<u8> {
    Seq::new(n, |i: int| 0u8)
}

/// The exact bytes of a request header: the command name zero-padded to its
/// fixed width, the body length, the response-requested flag, and a zeroed
/// reserved field.
pub open spec fn header_bytes(cmd: Seq<u8>, body_len: int, want_response: bool) -> Seq<u8> {
    cmd + zeros((COMMAND_FIELD_LEN - cmd.len()) as nat) + be4(body_len as u32) + be2(
        if want_response {
            1u16
        } else {
            0u16
        },
    ) + be2(0u16)
}

/// Whether a request can be built at all: the command name is ASCII and fits
/// the fixed field, and the argument list encodes under its codes.
pub open spec fn request_ok(command: Seq<char>, vs: Seq<ValV>, cs: Seq<TypeCode>) -> bool {
    &&& is_ascii_chars(command)
    &&& encode_utf8(command).len() <= COMMAND_FIELD_LEN
    &&& list_encodable(vs, cs)
}

/// Whether a request can also be framed: its encoded body length fits the
/// header's 4-byte length field.
pub open spec fn frame_ok(command: Seq<char>, vs: Seq<ValV>, cs: Seq<TypeCode>) -> bool {
    &&& request_ok(command, vs, cs)
    &&& enc_list(vs, cs).len() <= 0xFFFF_FFFF
}

/// Build one complete request message: header plus encoded body.
///
/// Fails with `InvalidInput` — emitting nothing — when the command name is
/// not ASCII or longer than the fixed field, or when the argument list does
/// not encode under its codes; fails with `Protocol` when the encoded body
/// is longer than the header's 4-byte length field can declare.
pub fn build_request(
    command: &str,
    args: &Vec<NanonisValue>,
    arg_codes: &Vec<TypeCode>,
    want_response: bool,
) -> (r: Result<Vec<u8>, NanonisError>)
    ensures
        match r {
            Ok(msg) => frame_ok(command@, views_of(args@), arg_codes@) && msg@ == header_bytes(
                encode_utf8(command@),
                enc_list(views_of(args@), arg_codes@).len() as int,
                want_response,
            ) + enc_list(views_of(args@), arg_codes@),
            Err(e) => !frame_ok(command@, views_of(args@), arg_codes@) && (e is InvalidInput
                <==> !request_ok(command@, views_of(args@), arg_codes@)) && (e is InvalidInput
                || e is Protocol),
        },
{
    if !command.is_ascii() {
        return Err(NanonisError::InvalidInput("command name is not ASCII".to_string()));
    }
    let cmdb = command.as_bytes_vec();
    if cmdb.len() > COMMAND_FIELD_LEN {
        return Err(NanonisError::InvalidInput("command name is too long".to_string()));
    }
    let body = match encode_body(args, arg_codes) {
        Ok(b) => b,
        Err(e) => {
            return Err(e);
        },
    };
    if body.len() as u64 > 0xFFFF_FFFFu64 {
        return Err(NanonisError::Protocol(
            "body too long for the header's length field".to_string(),
        ));
    }
    let mut msg: Vec<u8> = Vec::new();
    push_u8s(&mut msg, &cmdb);
    proof {
        assert(msg@ =~= cmdb@ + zeros((msg@.len() - cmdb@.len()) as nat));
    }
    while msg.len() < COMMAND_FIELD_LEN
        invariant
            cmdb@.len() <= msg@.len() <= COMMAND_FIELD_LEN,
            msg@ == cmdb@ + zeros((msg@.len() - cmdb@.len()) as nat),
        decreases COMMAND_FIELD_LEN - msg@.len(),
    {
        let ghost n = (msg@.len() - cmdb@.len()) as nat;
        msg.push(0u8);
        proof {
            assert(zeros(n + 1) =~= zeros(n).push(0u8));
            assert(cmdb@ + zeros(n + 1) =~= (cmdb@ + zeros(n)).push(0u8));
        }
    }
    push_be4(&mut msg, body.len() as u32);
    if want_response {
        push_be2(&mut msg, 1u16);
    } else {
        push_be2(&mut msg, 0u16);
    }
    push_be2(&mut msg, 0u16);
    push_u8s(&mut msg, &body);
    proof {
        assert(msg@ =~= header_bytes(
            encode_utf8(command@),
            enc_list(views_of(args@), arg_codes@).len() as int,
            want_response,
        ) + enc_list(views_of(args@), arg_codes@));
    }
    Ok(msg)
}

/// The remote status carried in the first four bytes of a response body.
pub open spec fn status_of(b: Seq<u8>) -> int {
    crate::wire::rd4(b[0], b[1], b[2], b[3]) as i32 as int
}

/// Interpret one response body against the expected result codes.
///
/// The body leads with a 4-byte remote status. A nonzero status is a failure
/// the instrument itself reported: its length-prefixed message follows, and
/// the call returns `Server { code, message }` without attempting to decode
/// any result field. A zero status is followed by exactly the declared
/// result fields, decoded and checked for trailing bytes.
pub fn interpret_response(body: &Vec<u8>, result_codes: &Vec<TypeCode>) -> (r: Result<
    Vec<NanonisValue>,
    NanonisError,
>)
    ensures
        match r {
            Ok(vals) => body@.len() >= 4 && status_of(body@) == 0 && dec_list(
                body@.skip(4),
                result_codes@,
                None,
            ) == Some(views_of(vals@)),
            Err(e) => match e {
                NanonisError::Server { code, message } => body@.len() >= 4 && status_of(body@) != 0
                    && code as int == status_of(body@) && dec_one(
                    body@.skip(4),
                    TypeCode::Str,
                    None,
                ) is Some && dec_one(body@.skip(4), TypeCode::Str, None)->Some_0.0 == ValV::Str(
                    message@,
                ),
                NanonisError::Protocol(m) => body@.len() < 4 || (status_of(body@) == 0 && dec_list(
                    body@.skip(4),
                    result_codes@,
                    None,
                ) is None) || (status_of(body@) != 0 && dec_one(
                    body@.skip(4),
                    TypeCode::Str,
                    None,
                ) is None),
                _ => false,
            },
        },
{
    let len = body.len();
    if len < 4 {
        return Err(NanonisError::Protocol("response body shorter than its status".to_string()));
    }
    let st = read_be4(body, 0) as i32;
    if st != 0 {
        match decode_value(body, 4, TypeCode::Str, None) {
            Ok((v, _used)) => match v {
                NanonisValue::String(s) => Err(NanonisError::Server { code: st, message: s }),
                _ => {
                    proof {
                        assert(false);
                    }
                    Err(NanonisError::Protocol("unreachable".to_string()))
                },
            },
            Err(_) => Err(
                NanonisError::Protocol("malformed error message in response".to_string()),
            ),
        }
    } else {
        let rest = copy_bytes(body, 4, len - 4);
        proof {
            assert(rest@ =~= body@.skip(4));
        }
        decode_body(&rest, result_codes)
    }
}

/// Timeouts for one connection, each in milliseconds; `None` blocks forever.
#[derive(Debug, Clone, Copy, PartialEq, Eq, Structural)]
pub struct ConnectionConfig {
    pub connect_timeout_ms: Option<u64>,
    pub read_timeout_ms: Option<u64>,
    pub write_timeout_ms: Option<u64>,
}

impl ConnectionConfig {
    /// The default configuration: no connect deadline, thirty seconds on
    /// each read and write.
    pub open spec fn spec_default() -> ConnectionConfig {
        ConnectionConfig {
            connect_timeout_ms: None,
            read_timeout_ms: Some(30000u64),
            write_timeout_ms: Some(30000u64),
        }
    }
}

impl Default for ConnectionConfig {
    /// No connect timeout and a thirty-second deadline on each read or write.
    fn default() -> (r: Self)
        ensures
            r == ConnectionConfig::spec_default(),
    {
        ConnectionConfig {
            connect_timeout_ms: None,
            read_timeout_ms: Some(30000),
            write_timeout_ms: Some(30000),
        }
    }
}

/// Whether every decoded result carries the tag its code describes.
pub open spec fn results_fit(vals: Seq<ValV>, cs: Seq<TypeCode>) -> bool {
    vals.len() == cs.len() && forall|i: int| 0 <= i < cs.len() ==> fits(#[trigger] vals[i], cs[i])
}

/// One recorded command exchange: the request as it was framed and sent, and
/// the decoded result values when the transaction produced them. The
/// transcript of these is the mathematical trace the per-subsystem methods
/// are specified against.
pub struct Exchange {
    pub command: Seq<char>,
    pub args: Seq<ValV>,
    pub arg_codes: Seq<TypeCode>,
    pub result_codes: Seq<TypeCode>,
    /// `Some` with the decoded values when the transaction returned `Ok`;
    /// `None` when it failed after the request went out.
    pub response: Option<Seq<ValV>>,
}

/// The transcript grew by exactly one exchange, with this request.
pub open spec fn sent(
    t0: Seq<Exchange>,
    t1: Seq<Exchange>,
    command: Seq<char>,
    args: Seq<ValV>,
    arg_codes: Seq<TypeCode>,
    result_codes: Seq<TypeCode>,
) -> bool {
    &&& t1.len() == t0.len() + 1
    &&& t1 == t0.push(t1.last())
    &&& t1.last().command == command
    &&& t1.last().args == args
    &&& t1.last().arg_codes == arg_codes
    &&& t1.last().result_codes == result_codes
}


/// A code of fixed scalar width.
pub open spec fn scalar_code(c: TypeCode) -> bool {
    match c {
        TypeCode::U16 => true,
        TypeCode::I16 => true,
        TypeCode::U32 => true,
        TypeCode::I32 => true,
        TypeCode::F32 => true,
        TypeCode::F64 => true,
        _ => false,
    }
}

/// A request of fixed-width scalars is small: at most eight bytes per field,
/// so it always fits the header's length field.
pub proof fn lemma_scalar_frame(vs: Seq<ValV>, cs: Seq<TypeCode>)
    requires
        forall|i: int| 0 <= i < cs.len() ==> scalar_code(#[trigger] cs[i]),
    ensures
        enc_list(vs, cs).len() <= 8 * cs.len(),
    decreases cs.len(),
{
    if cs.len() == 0 || vs.len() == 0 {
    } else {
        assert forall|i: int| 0 <= i < cs.skip(1).len() implies scalar_code(
            #[trigger] cs.skip(1)[i],
        ) by {
            assert(cs.skip(1)[i] == cs[i + 1]);
        }
        lemma_scalar_frame(vs.skip(1), cs.skip(1));
        assert(scalar_code(cs[0]));
        assert(enc_val(vs[0], cs[0]).len() <= 8);
    }
}

/// A transport-or-remote error: what a transaction can fail with once its
/// request is known well-formed.
pub open spec fn transport_err(e: NanonisError) -> bool {
    e is Io || e is Timeout || e is Protocol || e is Server
}

/// A client of the instrument-control software: one TCP connection and its
/// configuration. Exactly one transaction can be in flight at a time, which
/// `&mut self` on [`NanonisClient::transact`] enforces; sharing a client
/// across threads takes an external mutual-exclusion wrapper of the caller's
/// choosing.
pub struct NanonisClient {
    sock: socket2::Socket,
    config: ConnectionConfig,
    past: Ghost<Seq<Exchange>>,
}

impl NanonisClient {
    /// The configuration the connection was opened with, as contracts see it.
    pub closed spec fn spec_config(&self) -> ConnectionConfig {
        self.config
    }

    /// The requests this client has sent, in order, each with its decoded
    /// response when one came back. Purely mathematical: the per-subsystem
    /// methods promise in their contracts what they append here.
    pub closed spec fn transcript(&self) -> Seq<Exchange> {
        self.past@
    }

    /// Open a connection to the given IP address and port with the given
    /// configuration. There is no automatic reconnection: after a failed
    /// transaction the caller must build a new client.
    pub fn connect(host: &str, port: u16, config: ConnectionConfig) -> (r: Result<
        NanonisClient,
        NanonisError,
    >)
        ensures
            match r {
                Ok(c) => is_ip_address(host@) && c.spec_config() == config && c.transcript()
                    == Seq::<Exchange>::empty(),
                Err(e) => (e is InvalidInput <==> !is_ip_address(host@)) && (e is InvalidInput
                    || e is Io),
            },
    {
        let addr = match parse_addr(host, port) {
            Some(a) => a,
            None => {
                return Err(NanonisError::InvalidInput(
                    "host is not a numeric IP address".to_string(),
                ));
            },
        };
        let sock = match sock_connect(&addr, config.connect_timeout_ms) {
            Ok(s) => s,
            Err(e) => {
                return Err(e);
            },
        };
        match sock_set_read_timeout(&sock, config.read_timeout_ms) {
            Ok(()) => (),
            Err(e) => {
                return Err(e);
            },
        }
        match sock_set_write_timeout(&sock, config.write_timeout_ms) {
            Ok(()) => (),
            Err(e) => {
                return Err(e);
            },
        }
        Ok(NanonisClient { sock, config, past: Ghost(Seq::empty()) })
    }

    /// Open a connection with the default configuration.
    pub fn new(host: &str, port: u16) -> (r: Result<NanonisClient, NanonisError>)
        ensures
            match r {
                Ok(c) => is_ip_address(host@) && c.spec_config()
                    == ConnectionConfig::spec_default() && c.transcript()
                    == Seq::<Exchange>::empty(),
                Err(e) => (e is InvalidInput <==> !is_ip_address(host@)) && (e is InvalidInput
                    || e is Io),
            },
    {
        NanonisClient::connect(host, port, ConnectionConfig::default())
    }

    /// Wrap an already-connected socket.
    pub fn from_socket(sock: socket2::Socket, config: ConnectionConfig) -> (r: NanonisClient)
        ensures
            r.spec_config() == config,
            r.transcript() == Seq::<Exchange>::empty(),
    {
        NanonisClient { sock, config, past: Ghost(Seq::empty()) }
    }

    /// The configuration the connection was opened with.
    pub fn config(&self) -> (r: ConnectionConfig)
        ensures
            r == self.spec_config(),
    {
        self.config
    }

    /// Execute one command round-trip.
    ///
    /// The arguments are encoded under `arg_codes` (failing with
    /// `InvalidInput` before anything is sent if they do not match), framed
    /// under the fixed header, and written once. An empty `result_codes`
    /// means fire-and-forget: no response is awaited, though the write itself
    /// can still fail. Otherwise the response header is read, then exactly
    /// the declared body length; a nonzero remote status comes back as
    /// `Server { code, message }`, and a zero status as the decoded result
    /// values — one per result code, each carrying the tag its code
    /// describes. A read or write past the configured deadline fails with
    /// `Timeout`; the command may still execute remotely, and nothing is
    /// retried here.
    ///
    /// The contract pins the client-side decisions: `InvalidInput` comes
    /// back exactly on a request the codec rejects, and when the request is
    /// framable it is appended to the transcript — with the decoded values
    /// on success, without them on a transport or remote failure.
    pub fn transact(
        &mut self,
        command: &str,
        args: Vec<NanonisValue>,
        arg_codes: Vec<TypeCode>,
        result_codes: Vec<TypeCode>,
    ) -> (r: Result<Vec<NanonisValue>, NanonisError>)
        ensures
            final(self).spec_config() == old(self).spec_config(),
            r matches Ok(vals) ==> results_fit(views_of(vals@), result_codes@),
            !frame_ok(command@, views_of(args@), arg_codes@) ==> r is Err,
            !frame_ok(command@, views_of(args@), arg_codes@) && request_ok(
                command@,
                views_of(args@),
                arg_codes@,
            ) ==> (r matches Err(e) && e is Protocol),
            r matches Err(e) ==> (e is InvalidInput <==> !request_ok(
                command@,
                views_of(args@),
                arg_codes@,
            )) && (e is InvalidInput || transport_err(e)),
            ({
                let t0 = old(self).transcript();
                let t1 = final(self).transcript();
                if frame_ok(command@, views_of(args@), arg_codes@) {
                    t1 == t0.push(
                        (Exchange {
                            command: command@,
                            args: views_of(args@),
                            arg_codes: arg_codes@,
                            result_codes: result_codes@,
                            response: (match r {
                                Ok(vals) => Some(views_of(vals@)),
                                Err(_) => None,
                            }),
                        }),
                    )
                } else {
                    t1 == t0
                }
            }),
    {
        let ghost t0 = self.past@;
        let want = result_codes.len() > 0;
        let msg = match build_request(command, &args, &arg_codes, want) {
            Ok(m) => m,
            Err(e) => {
                return Err(e);
            },
        };
        let ghost failed = (Exchange {
            command: command@,
            args: views_of(args@),
            arg_codes: arg_codes@,
            result_codes: result_codes@,
            response: None,
        });
        match sock_send_all(&self.sock, &msg) {
            Ok(()) => (),
            Err(e) => {
                self.past = Ghost(t0.push(failed));
                return Err(e);
            },
        }
        if !want {
            let empty: Vec<NanonisValue> = Vec::new();
            proof {
                assert(views_of(empty@) =~= Seq::<ValV>::empty());
            }
            self.past = Ghost(
                t0.push(
                    Exchange {
                        command: command@,
                        args: views_of(args@),
                        arg_codes: arg_codes@,
                        result_codes: result_codes@,
                        response: Some(views_of(empty@)),
                    },
                ),
            );
            return Ok(empty);
        }
        let hdr = match sock_recv_exact(&self.sock, HEADER_LEN) {
            Ok(h) => h,
            Err(e) => {
                self.past = Ghost(t0.push(failed));
                return Err(e);
            },
        };
        let blen = read_be4(&hdr, COMMAND_FIELD_LEN);
        let body = match sock_recv_exact(&self.sock, blen as usize) {
            Ok(b) => b,
            Err(e) => {
                self.past = Ghost(t0.push(failed));
                return Err(e);
            },
        };
        match interpret_response(&body, &result_codes) {
            Ok(vals) => {
                proof {
                    lemma_dec_list_fits(body@.skip(4), result_codes@, None);
                }
                self.past = Ghost(
                    t0.push(
                        Exchange {
                            command: command@,
                            args: views_of(args@),
                            arg_codes: arg_codes@,
                            result_codes: result_codes@,
                            response: Some(views_of(vals@)),
                        },
                    ),
                );
                Ok(vals)
            },
            Err(e) => {
                self.past = Ghost(t0.push(failed));
                Err(e)
            },
        }
    }

    /// Execute one command round-trip; the form the per-subsystem methods
    /// use. The contract is that of [`NanonisClient::transact`].
    pub fn quick_send(
        &mut self,
        command: &str,
        args: Vec<NanonisValue>,
        arg_codes: Vec<TypeCode>,
        result_codes: Vec<TypeCode>,
    ) -> (r: Result<Vec<NanonisValue>, NanonisError>)
        ensures
            final(self).spec_config() == old(self).spec_config(),
            r matches Ok(vals) ==> results_fit(views_of(vals@), result_codes@),
            !frame_ok(command@, views_of(args@), arg_codes@) ==> r is Err,
            !frame_ok(command@, views_of(args@), arg_codes@) && request_ok(
                command@,
                views_of(args@),
                arg_codes@,
            ) ==> (r matches Err(e) && e is Protocol),
            r matches Err(e) ==> (e is InvalidInput <==> !request_ok(
                command@,
                views_of(args@),
                arg_codes@,
            )) && (e is InvalidInput || transport_err(e)),
            ({
                let t0 = old(self).transcript();
                let t1 = final(self).transcript();
                if frame_ok(command@, views_of(args@), arg_codes@) {
                    t1 == t0.push(
                        (Exchange {
                            command: command@,
                            args: views_of(args@),
                            arg_codes: arg_codes@,
                            result_codes: result_codes@,
                            response: (match r {
                                Ok(vals) => Some(views_of(vals@)),
                                Err(_) => None,
                            }),
                        }),
                    )
                } else {
                    t1 == t0
                }
            }),
    {
        self.transact(command, args, arg_codes, result_codes)
    }
}

} // verus!
