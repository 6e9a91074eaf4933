//! The signing exchange with a Ledger device.
//!
//! Signing sends the derivation path and the payload in chunks of at most 150
//! bytes; every chunk must be acknowledged, and the reply to the last one holds
//! the signature. The device I/O is done by the caller: a [`SigningSession`]
//! says what to send next and what each reply means.
use vstd::prelude::*;
use vstd::utf8::{decode_utf8, valid_utf8};
use crate::bytes::{append_bytes, copy_range, push_u32_be, u32_be};
use crate::ledger_flex::commands::{
    apdu_encoding, derivation_path_bytes, get_public_key_command, parse_derivation_path,
    parse_public_key_response, public_key_parts, public_key_response_overruns, response_parts,
    status_error, ApduCommand, ApduResponse, CLA, INS_SIGN_MESSAGE, INS_SIGN_TRANSACTION,
    INS_GET_PUBLIC_KEY,
};
use crate::ledger_flex::error::{LedgerError, LedgerErrorView};
use crate::ledger_flex::transport::{byte_vec_views, min_nat};
use crate::text::{decimal_text, has_prefix, owned, push_decimal, push_str};

verus! {

/// Largest chunk of signing data sent in one command.
pub const SIGN_CHUNK_SIZE: usize = 150;

/// `data` cut into consecutive pieces of `size` bytes, the last one possibly shorter.
pub open spec fn chunks_of(data: Seq<u8>, size: nat) -> Seq<Seq<u8>>
    decreases data.len(),
{
    if data.len() == 0 || size == 0 {
        seq![]
    } else {
        let n = min_nat(data.len(), size) as int;
        seq![data.take(n)] + chunks_of(data.skip(n), size)
    }
}

/// The concatenation of a sequence of byte sequences.
pub open spec fn concat_all(parts: Seq<Seq<u8>>) -> Seq<u8>
    decreases parts.len(),
{
    if parts.len() == 0 {
        Seq::empty()
    } else {
        parts[0] + concat_all(parts.skip(1))
    }
}

/// Splits data into chunks of at most `chunk_size` bytes.
pub fn chunk_data(data: &[u8], chunk_size: usize) -> (r: Vec<Vec<u8>>)
    requires
        chunk_size > 0 || data.len() == 0,
    ensures
        byte_vec_views(r@) == chunks_of(data@, chunk_size as nat),
{
    let mut chunks: Vec<Vec<u8>> = Vec::new();
    let mut offset: usize = 0;
    assert(data@.skip(0) == data@);
    while offset < data.len()
        invariant
            offset <= data.len(),
            chunk_size > 0 || data.len() == 0,
            byte_vec_views(chunks@) + chunks_of(data@.skip(offset as int), chunk_size as nat)
                == chunks_of(data@, chunk_size as nat),
        decreases data.len() - offset,
    {
        let end: usize = if data.len() - offset < chunk_size {
            data.len()
        } else {
            offset + chunk_size
        };
        let piece = copy_range(data, offset, end);
        let ghost rest = data@.skip(offset as int);
        let ghost before = byte_vec_views(chunks@);
        assert(piece@ == rest.take((end - offset) as int));
        assert(rest.skip((end - offset) as int) == data@.skip(end as int));
        chunks.push(piece);
        assert(byte_vec_views(chunks@) =~= before.push(piece@));
        assert(before.push(piece@) + chunks_of(data@.skip(end as int), chunk_size as nat) =~= before
            + (seq![piece@] + chunks_of(data@.skip(end as int), chunk_size as nat)));
        offset = end;
    }
    assert(data@.skip(offset as int) =~= Seq::<u8>::empty());
    assert(byte_vec_views(chunks@) + seq![] =~= byte_vec_views(chunks@));
    chunks
}

/// Chunks put back together give the data.
pub proof fn law_chunks_concat(data: Seq<u8>, size: nat)
    requires
        size > 0,
    ensures
        concat_all(chunks_of(data, size)) == data,
    decreases data.len(),
{
    if data.len() > 0 {
        let n = min_nat(data.len(), size) as int;
        let cs = chunks_of(data, size);
        law_chunks_concat(data.skip(n), size);
        assert(cs.skip(1) == chunks_of(data.skip(n), size));
        assert(data.take(n) + data.skip(n) =~= data);
    } else {
        assert(concat_all(chunks_of(data, size)) =~= data);
    }
}

/// Every chunk is non-empty and at most `size` bytes; every chunk but the last
/// is exactly `size` bytes; there are as many chunks as `size`-byte pieces
/// needed to hold the data.
pub proof fn law_chunk_sizes(data: Seq<u8>, size: nat)
    requires
        size > 0,
    ensures
        forall|i: int|
            0 <= i < chunks_of(data, size).len() ==> 0 < (#[trigger] chunks_of(data, size)[i]).len()
                <= size,
        forall|i: int|
            0 <= i < chunks_of(data, size).len() - 1 ==> (#[trigger] chunks_of(data, size)[i]).len()
                == size,
        chunks_of(data, size).len() == (data.len() + size - 1) / (size as int),
    decreases data.len(),
{
    let cs = chunks_of(data, size);
    if data.len() > 0 {
        let n = min_nat(data.len(), size) as int;
        law_chunk_sizes(data.skip(n), size);
        let tail = chunks_of(data.skip(n), size);
        assert(cs == seq![data.take(n)] + tail);
        assert forall|i: int| 0 <= i < cs.len() implies 0 < (#[trigger] cs[i]).len() <= size by {
            if i > 0 {
                assert(cs[i] == tail[i - 1]);
            }
        }
        assert forall|i: int| 0 <= i < cs.len() - 1 implies (#[trigger] cs[i]).len() == size by {
            if i > 0 {
                assert(cs[i] == tail[i - 1]);
            }
        }
        if data.len() <= size {
            assert(tail.len() == 0);
            assert((data.len() + size - 1) / (size as int) == 1) by (nonlinear_arith)
                requires
                    0 < data.len() <= size,
            ;
        } else {
            let l = data.len() as int;
            let z = size as int;
            assert((l + z - 1) / z == (l - z + z - 1) / z + 1) by (nonlinear_arith)
                requires
                    l > z > 0,
            ;
        }
    } else {
        assert((size + 0 - 1) / (size as int) == 0) by (nonlinear_arith)
            requires
                size > 0,
        ;
    }
}

/// Parses a 65-byte signature into (v, r, s).
pub fn parse_signature(sig_data: &[u8]) -> (r: Result<(u8, [u8; 32], [u8; 32]), LedgerError>)
    ensures
        match r {
            Ok((v, rr, ss)) => sig_data@.len() == 65 && v == sig_data@[0] && rr@ == sig_data@.subrange(
                1,
                33,
            ) && ss@ == sig_data@.subrange(33, 65),
            Err(e) => sig_data@.len() != 65 && e@ == LedgerErrorView::InvalidResponse(
                "Invalid signature length: expected 65, got "@ + decimal_text(sig_data@.len()),
            ),
        },
{
    if sig_data.len() != 65 {
        let mut msg = owned("Invalid signature length: expected 65, got ");
        push_decimal(&mut msg, sig_data.len() as u64);
        return Err(LedgerError::InvalidResponse(msg));
    }
    let v = sig_data[0];
    let mut r = [0u8; 32];
    let mut s = [0u8; 32];
    let mut i: usize = 0;
    while i < 32
        invariant
            sig_data@.len() == 65,
            i <= 32,
            forall|j: int| 0 <= j < i ==> r@[j] == sig_data@[1 + j] && s@[j] == sig_data@[33 + j],
        decreases 32 - i,
    {
        r[i] = sig_data[1 + i];
        s[i] = sig_data[33 + i];
        i = i + 1;
    }
    assert(r@ =~= sig_data@.subrange(1, 33));
    assert(s@ =~= sig_data@.subrange(33, 65));
    Ok((v, r, s))
}

/// The commands that send a signing payload: one per chunk, the first with
/// P1 = 0x00 and the rest with P1 = 0x80.
pub open spec fn signing_commands(ins: u8, payload: Seq<u8>) -> Seq<Seq<u8>> {
    let chunks = chunks_of(payload, SIGN_CHUNK_SIZE as nat);
    Seq::new(
        chunks.len(),
        |i: int|
            apdu_encoding(
                CLA,
                ins,
                if i == 0 {
                    0u8
                } else {
                    0x80u8
                },
                0,
                chunks[i],
            ),
    )
}

/// What a transaction signature is asked for with: path bytes then the transaction.
pub open spec fn transaction_payload(path_bytes: Seq<u8>, tx: Seq<u8>) -> Seq<u8> {
    path_bytes + tx
}

/// What a message signature is asked for with: path bytes, the message length
/// in four bytes big-endian (its low 32 bits), then the message.
pub open spec fn message_payload(path_bytes: Seq<u8>, message: Seq<u8>) -> Seq<u8> {
    path_bytes + u32_be((message.len() % 0x1_0000_0000) as u32) + message
}

/// The commands of a session, and the index of the command whose reply is awaited.
pub struct SessionView {
    pub commands: Seq<Seq<u8>>,
    pub next: nat,
}

/// An ongoing signing exchange.
pub struct SigningSession {
    commands: Vec<Vec<u8>>,
    next: usize,
}

/// What a reply leads to.
pub enum SignStep {
    /// Send this command and give its reply to the session.
    Send(SigningSession, Vec<u8>),
    /// The signature.
    Done(Vec<u8>),
    /// The exchange failed.
    Failed(LedgerError),
}

/// What the reply to the awaited command means: a short reply or an error
/// status fails the exchange; success on the last command gives its data as the
/// signature; success on an earlier command moves on to the next.
pub enum SessionOutcome {
    Next,
    Done(Seq<u8>),
    Failed(LedgerErrorView),
}

/// The meaning of a reply when command `next` of `count` is awaited.
pub open spec fn session_outcome(count: nat, next: nat, reply: Seq<u8>) -> SessionOutcome {
    match response_parts(reply) {
        None => SessionOutcome::Failed(LedgerErrorView::InvalidResponse("Response too short"@)),
        Some((data, status)) => match status_error(status) {
            Some(e) => SessionOutcome::Failed(e),
            None => if next + 1 == count {
                SessionOutcome::Done(data)
            } else {
                SessionOutcome::Next
            },
        },
    }
}

impl View for SigningSession {
    type V = SessionView;

    closed spec fn view(&self) -> SessionView {
        SessionView { commands: byte_vec_views(self.commands@), next: self.next as nat }
    }
}

impl SigningSession {
    /// A session is waiting for the reply to one of its commands.
    pub open spec fn wf(&self) -> bool {
        self@.next < self@.commands.len()
    }

    fn from_payload(ins: u8, payload: &[u8]) -> (r: SigningSession)
        requires
            payload.len() > 0,
        ensures
            r@.commands == signing_commands(ins, payload@),
            r@.next == 0,
            r.wf(),
    {
        let chunks = chunk_data(payload, SIGN_CHUNK_SIZE);
        let ghost cs = chunks_of(payload@, SIGN_CHUNK_SIZE as nat);
        let mut commands: Vec<Vec<u8>> = Vec::new();
        let mut i: usize = 0;
        while i < chunks.len()
            invariant
                cs == chunks_of(payload@, SIGN_CHUNK_SIZE as nat),
                byte_vec_views(chunks@) == cs,
                i <= chunks.len(),
                byte_vec_views(commands@) == signing_commands(ins, payload@).take(i as int),
            decreases chunks.len() - i,
        {
            let p1: u8 = if i == 0 {
                0x00
            } else {
                0x80
            };
            assert(chunks@[i as int]@ == cs[i as int]);
            let mut data: Vec<u8> = Vec::new();
            append_bytes(&mut data, chunks[i].as_slice());
            let cmd = ApduCommand::new(ins, p1, 0x00, data);
            let bytes = cmd.to_bytes();
            let ghost before = byte_vec_views(commands@);
            assert(data@ =~= cs[i as int]);
            assert(signing_commands(ins, payload@).len() == cs.len());
            assert(signing_commands(ins, payload@)[i as int] == bytes@);
            commands.push(bytes);
            assert(byte_vec_views(commands@) =~= before.push(bytes@));
            assert(signing_commands(ins, payload@).take(i + 1) =~= signing_commands(
                ins,
                payload@,
            ).take(i as int).push(bytes@));
            i = i + 1;
        }
        assert(signing_commands(ins, payload@).take(i as int) =~= signing_commands(ins, payload@));
        assert(cs.len() > 0);
        SigningSession { commands, next: 0 }
    }

    /// Starts signing a transaction with the key at `path`.
    pub fn for_transaction(tx_data: &[u8], path: &str) -> (r: Result<SigningSession, LedgerError>)
        ensures
            match r {
                Ok(s) => s.wf() && s@.next == 0 && exists|b: Seq<u8>|
                    derivation_path_bytes(path@) == Ok::<Seq<u8>, Seq<char>>(b) && s@.commands
                        == signing_commands(INS_SIGN_TRANSACTION, transaction_payload(b, tx_data@)),
                Err(e) => exists|m: Seq<char>|
                    derivation_path_bytes(path@) == Err::<Seq<u8>, Seq<char>>(m) && e@
                        == LedgerErrorView::InvalidPath(m),
            },
    {
        let mut data = parse_derivation_path(path)?;
        let ghost b = data@;
        assert(b.len() >= 1);
        append_bytes(&mut data, tx_data);
        assert(data@ == transaction_payload(b, tx_data@));
        let s = SigningSession::from_payload(INS_SIGN_TRANSACTION, data.as_slice());
        assert(derivation_path_bytes(path@) == Ok::<Seq<u8>, Seq<char>>(b));
        Ok(s)
    }

    /// Starts signing a personal message (EIP-191) with the key at `path`.
    pub fn for_message(message: &[u8], path: &str) -> (r: Result<SigningSession, LedgerError>)
        ensures
            match r {
                Ok(s) => s.wf() && s@.next == 0 && exists|b: Seq<u8>|
                    derivation_path_bytes(path@) == Ok::<Seq<u8>, Seq<char>>(b) && s@.commands
                        == signing_commands(INS_SIGN_MESSAGE, message_payload(b, message@)),
                Err(e) => exists|m: Seq<char>|
                    derivation_path_bytes(path@) == Err::<Seq<u8>, Seq<char>>(m) && e@
                        == LedgerErrorView::InvalidPath(m),
            },
    {
        let mut data = parse_derivation_path(path)?;
        let ghost b = data@;
        assert(b.len() >= 1);
        let msg_len: u32 = (message.len() as u64 % 0x1_0000_0000) as u32;
        push_u32_be(&mut data, msg_len);
        append_bytes(&mut data, message);
        assert(data@ == message_payload(b, message@));
        let s = SigningSession::from_payload(INS_SIGN_MESSAGE, data.as_slice());
        assert(derivation_path_bytes(path@) == Ok::<Seq<u8>, Seq<char>>(b));
        Ok(s)
    }

    /// The command whose reply is awaited.
    pub fn current_command(&self) -> (r: Vec<u8>)
        requires
            self.wf(),
        ensures
            r@ == self@.commands[self@.next as int],
    {
        let mut r: Vec<u8> = Vec::new();
        append_bytes(&mut r, self.commands[self.next].as_slice());
        r
    }

    /// Takes the device's reply to the awaited command.
    pub fn on_reply(self, reply: &[u8]) -> (r: SignStep)
        requires
            self.wf(),
        ensures
            match (r, session_outcome(self@.commands.len(), self@.next, reply@)) {
                (SignStep::Send(s, cmd), SessionOutcome::Next) => s.wf() && s@.commands
                    == self@.commands && s@.next == self@.next + 1 && cmd@ == s@.commands[s@.next as int],
                (SignStep::Done(sig), SessionOutcome::Done(d)) => sig@ == d,
                (SignStep::Failed(e), SessionOutcome::Failed(f)) => e@ == f,
                _ => false,
            },
    {
        let response = match ApduResponse::from_bytes(reply) {
            Ok(resp) => resp,
            Err(e) => return SignStep::Failed(e),
        };
        match response.check_status() {
            Ok(_) => {},
            Err(e) => return SignStep::Failed(e),
        }
        let count = self.commands.len();
        assert(count == self@.commands.len());
        if self.next + 1 == count {
            return SignStep::Done(response.data);
        }
        let next = SigningSession { commands: self.commands, next: self.next + 1 };
        let cmd = next.current_command();
        SignStep::Send(next, cmd)
    }
}

/// The GET_PUBLIC_KEY request for a path, without on-device display.
pub fn public_key_request(path: &str) -> (r: Result<Vec<u8>, LedgerError>)
    ensures
        match r {
            Ok(v) => exists|b: Seq<u8>|
                derivation_path_bytes(path@) == Ok::<Seq<u8>, Seq<char>>(b) && v@ == apdu_encoding(
                    CLA,
                    INS_GET_PUBLIC_KEY,
                    0,
                    0,
                    b,
                ),
            Err(e) => exists|m: Seq<char>|
                derivation_path_bytes(path@) == Err::<Seq<u8>, Seq<char>>(m) && e@
                    == LedgerErrorView::InvalidPath(m),
        },
{
    let command = get_public_key_command(path, false)?;
    Ok(command.to_bytes())
}

/// The replies on which reading a public key would index past the data.
pub open spec fn public_key_reply_overruns(reply: Seq<u8>) -> bool {
    match response_parts(reply) {
        Some((data, status)) => public_key_response_overruns(status, data),
        None => false,
    }
}

/// What a GET_PUBLIC_KEY reply holds: the public key and the address bytes.
pub open spec fn public_key_reply(reply: Seq<u8>) -> Result<(Seq<u8>, Seq<u8>), LedgerErrorView> {
    match response_parts(reply) {
        None => Err(LedgerErrorView::InvalidResponse("Response too short"@)),
        Some((data, status)) => public_key_parts(status, data),
    }
}

/// Whether a GET_PUBLIC_KEY reply can be read without indexing past its data.
pub fn public_key_reply_in_bounds(reply: &[u8]) -> (r: bool)
    ensures
        r == !public_key_reply_overruns(reply@),
{
    match ApduResponse::from_bytes(reply) {
        Ok(resp) => !(resp.status == 0x9000 && resp.data.len() == 66 && resp.data[0] == 65),
        Err(_) => true,
    }
}

/// The uncompressed public key (65 bytes) in a GET_PUBLIC_KEY reply.
pub fn public_key_from_reply(reply: &[u8]) -> (r: Result<Vec<u8>, LedgerError>)
    requires
        !public_key_reply_overruns(reply@),
    ensures
        match (r, public_key_reply(reply@)) {
            (Ok(pk), Ok((k, _))) => pk@ == k,
            (Err(e), Err(f)) => e@ == f,
            _ => false,
        },
{
    let response = ApduResponse::from_bytes(reply)?;
    let (pubkey, _address) = parse_public_key_response(&response)?;
    Ok(pubkey)
}

/// The text of a `String::from_utf8` failure on these bytes.
pub uninterp spec fn utf8_error_text(bytes: Seq<u8>) -> Seq<char>;

/// `String::from_utf8`: succeeds exactly on valid UTF-8, with the decoded
/// characters; on failure gives the error's text (which names the offending
/// byte position), left unstated beyond being a function of the bytes.
#[verifier::external_body]
fn string_from_utf8(bytes: Vec<u8>) -> (r: Result<String, String>)
    ensures
        match r {
            Ok(s) => valid_utf8(bytes@) && s@ == decode_utf8(bytes@),
            Err(m) => !valid_utf8(bytes@) && m@ == utf8_error_text(bytes@),
        },
{
    String::from_utf8(bytes).map_err(|e| e.to_string())
}

/// The address text an address reply's bytes give: the decoded text with a
/// `0x` prefix added when it has none.
pub open spec fn address_text(address: Seq<u8>) -> Result<Seq<char>, LedgerErrorView> {
    if valid_utf8(address) {
        let s = decode_utf8(address);
        Ok(
            if has_prefix(s, "0x"@) {
                s
            } else {
                "0x"@ + s
            },
        )
    } else {
        Err(LedgerErrorView::InvalidResponse("Invalid address encoding: "@ + utf8_error_text(address)))
    }
}

/// The Ethereum address (hex text with `0x` prefix) in a GET_PUBLIC_KEY reply.
pub fn address_from_reply(reply: &[u8]) -> (r: Result<String, LedgerError>)
    requires
        !public_key_reply_overruns(reply@),
    ensures
        match (r, public_key_reply(reply@)) {
            (Ok(a), Ok((_, addr))) => address_text(addr) == Ok::<Seq<char>, LedgerErrorView>(a@),
            (Err(e), Ok((_, addr))) => address_text(addr) == Err::<Seq<char>, LedgerErrorView>(e@),
            (Err(e), Err(f)) => e@ == f,
            _ => false,
        },
{
    let response = ApduResponse::from_bytes(reply)?;
    let (_pubkey, address_bytes) = parse_public_key_response(&response)?;
    let address_str = match string_from_utf8(address_bytes) {
        Ok(s) => s,
        Err(m) => {
            let mut msg = owned("Invalid address encoding: ");
            push_str(&mut msg, m.as_str());
            return Err(LedgerError::InvalidResponse(msg));
        },
    };
    assert(public_key_reply(reply@) == Ok::<(Seq<u8>, Seq<u8>), LedgerErrorView>((_pubkey@, address_bytes@)));
    let chars = crate::text::chars_of(address_str.as_str());
    proof {
        reveal_strlit("0x");
    }
    assert("0x"@.len() == 2 && "0x"@[0] == '0' && "0x"@[1] == 'x');
    if chars.len() >= 2 && chars[0] == '0' && chars[1] == 'x' {
        assert(address_str@.take(2) =~= "0x"@);
        assert(has_prefix(address_str@, "0x"@));
        Ok(address_str)
    } else {
        assert(!has_prefix(address_str@, "0x"@)) by {
            if address_str@.len() >= 2 {
                assert(address_str@.take(2)[0] == address_str@[0]);
                assert(address_str@.take(2)[1] == address_str@[1]);
            }
        }
        let mut prefixed = owned("0x");
        push_str(&mut prefixed, address_str.as_str());
        Ok(prefixed)
    }
}

} // verus!
