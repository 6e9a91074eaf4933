//! APDU commands for the Ethereum app on Ledger devices.
//!
//! APDU (Application Protocol Data Unit) is the protocol used to send commands
//! to smart card applications such as the Ledger Ethereum app.
use vstd::prelude::*;
use crate::bytes::{append_bytes, copy_range, push_u32_be, u32_be, be_u16};
use crate::ledger_flex::error::{LedgerError, LedgerErrorView};
use crate::text::{
    chars_of, decimal_text, owned, parse_unsigned, parse_unsigned_text, push_decimal, push_char,
    };

verus! {

/// Ethereum app instruction: get public key.
pub const INS_GET_PUBLIC_KEY: u8 = 0x02;

/// Ethereum app instruction: sign transaction.
pub const INS_SIGN_TRANSACTION: u8 = 0x04;

/// Ethereum app instruction: sign personal message.
pub const INS_SIGN_MESSAGE: u8 = 0x08;

/// Ethereum app instruction: get app configuration.
pub const INS_GET_APP_CONFIGURATION: u8 = 0x06;

/// APDU class byte for the Ethereum app.
pub const CLA: u8 = 0xe0;

/// APDU success status word.
pub const SW_OK: u16 = 0x9000;

/// Status word: the user rejected the request on the device.
pub const SW_USER_REJECTED: u16 = 0x6985;

/// Status word: the device is locked.
pub const SW_DEVICE_LOCKED: u16 = 0x6982;

/// Status word: incorrect data.
pub const SW_INCORRECT_DATA: u16 = 0x6a80;

/// Status word: conditions of use not satisfied (same code as a user rejection).
pub const SW_CONDITIONS_NOT_SATISFIED: u16 = 0x6985;

/// Maximum APDU payload size.
pub const MAX_APDU_SIZE: usize = 255;

/// The hardened-index flag of a BIP32 path component.
pub const HARDENED_FLAG: u32 = 0x80000000;

/// An APDU command.
#[derive(Debug, Clone)]
pub struct ApduCommand {
    pub cla: u8,
    pub ins: u8,
    pub p1: u8,
    pub p2: u8,
    pub data: Vec<u8>,
}

/// The wire form of a command: class, instruction, the two parameters, the
/// length of the data in one byte (its low eight bits), then the data.
pub open spec fn apdu_encoding(cla: u8, ins: u8, p1: u8, p2: u8, data: Seq<u8>) -> Seq<u8> {
    seq![cla, ins, p1, p2, (data.len() % 256) as u8] + data
}

impl ApduCommand {
    /// The bytes this command is sent as.
    pub open spec fn encoding(&self) -> Seq<u8> {
        apdu_encoding(self.cla, self.ins, self.p1, self.p2, self.data@)
    }

    /// A command of the Ethereum app class.
    pub fn new(ins: u8, p1: u8, p2: u8, data: Vec<u8>) -> (r: Self)
        ensures
            r.cla == CLA,
            r.ins == ins,
            r.p1 == p1,
            r.p2 == p2,
            r.data@ == data@,
    {
        ApduCommand { cla: CLA, ins, p1, p2, data }
    }

    /// Serializes the command.
    pub fn to_bytes(&self) -> (r: Vec<u8>)
        ensures
            r@ == self.encoding(),
    {
        let mut bytes: Vec<u8> = Vec::new();
        bytes.push(self.cla);
        bytes.push(self.ins);
        bytes.push(self.p1);
        bytes.push(self.p2);
        bytes.push((self.data.len() % 256) as u8);
        append_bytes(&mut bytes, self.data.as_slice());
        assert(bytes@ == self.encoding());
        bytes
    }
}

/// An APDU response: data followed by a two-byte status word.
#[derive(Debug, Clone)]
pub struct ApduResponse {
    pub data: Vec<u8>,
    pub status: u16,
}

/// The data and status word that a response's bytes hold, or `None` when there
/// are fewer than two bytes.
pub open spec fn response_parts(bytes: Seq<u8>) -> Option<(Seq<u8>, u16)> {
    if bytes.len() < 2 {
        None
    } else {
        let n = bytes.len() - 2;
        Some((bytes.take(n), be_u16(bytes[n], bytes[n + 1])))
    }
}

/// The bytes a device sends for a response: the data, then the status word big-endian.
pub open spec fn response_encoding(data: Seq<u8>, status: u16) -> Seq<u8> {
    data + seq![(status / 256) as u8, (status % 256) as u8]
}

/// The error that a status word stands for, or `None` for success.
pub open spec fn status_error(status: u16) -> Option<LedgerErrorView> {
    if status == SW_OK {
        None
    } else if status == SW_USER_REJECTED {
        Some(LedgerErrorView::UserRejected)
    } else if status == SW_DEVICE_LOCKED {
        Some(LedgerErrorView::DeviceLocked)
    } else if status == SW_INCORRECT_DATA {
        Some(LedgerErrorView::InvalidResponse("Incorrect data sent to device"@))
    } else {
        Some(LedgerErrorView::InvalidStatusCode(status))
    }
}

/// What a device's status word means: `0x9000` alone is success; `0x6985`
/// is a rejection by the user, `0x6982` a locked device, `0x6a80` incorrect
/// data; every other word is reported as an unknown status code.
pub proof fn law_status_words(status: u16)
    ensures
        status_error(status) is None <==> status == 0x9000,
        status_error(0x6985) == Some(LedgerErrorView::UserRejected),
        status_error(0x6982) == Some(LedgerErrorView::DeviceLocked),
        status_error(0x6a80) == Some(LedgerErrorView::InvalidResponse("Incorrect data sent to device"@)),
        (status != 0x9000 && status != 0x6985 && status != 0x6982 && status != 0x6a80) ==> status_error(
            status,
        ) == Some(LedgerErrorView::InvalidStatusCode(status)),
{
}

impl ApduResponse {
    /// Parses a response from the bytes a device sent.
    pub fn from_bytes(bytes: &[u8]) -> (r: Result<Self, LedgerError>)
        ensures
            match r {
                Ok(resp) => response_parts(bytes@) == Some((resp.data@, resp.status)),
                Err(e) => response_parts(bytes@) is None && e@ == LedgerErrorView::InvalidResponse(
                    "Response too short"@,
                ),
            },
    {
        if bytes.len() < 2 {
            return Err(LedgerError::InvalidResponse(owned("Response too short")));
        }
        let data_len = bytes.len() - 2;
        let data = copy_range(bytes, 0, data_len);
        let status: u16 = (bytes[data_len] as u16) * 256 + bytes[data_len + 1] as u16;
        assert(bytes@.subrange(0, data_len as int) == bytes@.take(data_len as int));
        Ok(ApduResponse { data, status })
    }

    /// Whether the status word reports success.
    pub fn is_success(&self) -> (r: bool)
        ensures
            r == (self.status == SW_OK),
    {
        self.status == SW_OK
    }

    /// The status word as a result: `Ok` on success, else the error it stands for.
    pub fn check_status(&self) -> (r: Result<(), LedgerError>)
        ensures
            match r {
                Ok(_) => status_error(self.status) is None,
                Err(e) => status_error(self.status) == Some(e@),
            },
    {
        if self.status == SW_OK {
            Ok(())
        } else if self.status == SW_USER_REJECTED {
            Err(LedgerError::UserRejected)
        } else if self.status == SW_DEVICE_LOCKED {
            Err(LedgerError::DeviceLocked)
        } else if self.status == SW_INCORRECT_DATA {
            Err(LedgerError::InvalidResponse(owned("Incorrect data sent to device")))
        } else {
            Err(LedgerError::InvalidStatusCode(self.status))
        }
    }
}

/// A device response parses back to the data and status word it was sent with.
pub proof fn law_response_roundtrip(data: Seq<u8>, status: u16)
    ensures
        response_parts(response_encoding(data, status)) == Some((data, status)),
{
    let b = response_encoding(data, status);
    assert(b.take(data.len() as int) == data);
    assert(b[data.len() as int] == (status / 256) as u8);
    assert(b[data.len() as int + 1] == (status % 256) as u8);
}

// ---------------------------------------------------------------------------
// BIP32 derivation paths
// ---------------------------------------------------------------------------

/// The path with every leading `m/` removed (as `trim_start_matches("m/")` does).
pub open spec fn trim_path_prefix(s: Seq<char>) -> Seq<char>
    decreases s.len(),
{
    if s.len() >= 2 && s[0] == 'm' && s[1] == '/' {
        trim_path_prefix(s.skip(2))
    } else {
        s
    }
}

/// The pieces of `s` between `/` separators, as `str::split('/')` yields them.
pub open spec fn split_on_slash(s: Seq<char>) -> Seq<Seq<char>>
    decreases s.len(),
{
    if s.len() == 0 {
        seq![Seq::<char>::empty()]
    } else {
        let parts = split_on_slash(s.drop_last());
        if s.last() == '/' {
            parts.push(Seq::<char>::empty())
        } else {
            parts.update(parts.len() - 1, parts.last().push(s.last()))
        }
    }
}

/// Whether a path component is hardened (ends with `'`).
pub open spec fn is_hardened(c: Seq<char>) -> bool {
    c.len() > 0 && c.last() == '\''
}

/// The number text of a path component: without its trailing `'` when hardened.
pub open spec fn component_number_text(c: Seq<char>) -> Seq<char> {
    if is_hardened(c) {
        c.drop_last()
    } else {
        c
    }
}

/// The 32-bit index a path component stands for, or `None` when its number
/// does not read as a `u32`.
pub open spec fn component_index(c: Seq<char>) -> Option<u32> {
    match parse_unsigned_text(component_number_text(c), u32::MAX as nat) {
        Some(n) => if is_hardened(c) {
            Some((n as u32) | HARDENED_FLAG)
        } else {
            Some(n as u32)
        },
        None => None,
    }
}

/// The big-endian encoding of every component, in order; on the first component
/// whose number does not read, that number's text.
pub open spec fn components_bytes(cs: Seq<Seq<char>>) -> Result<Seq<u8>, Seq<char>>
    decreases cs.len(),
{
    if cs.len() == 0 {
        Ok(Seq::empty())
    } else {
        match components_bytes(cs.drop_last()) {
            Err(t) => Err(t),
            Ok(b) => match component_index(cs.last()) {
                Some(v) => Ok(b + u32_be(v)),
                None => Err(component_number_text(cs.last())),
            },
        }
    }
}

/// The components of a derivation path.
pub open spec fn path_components(path: Seq<char>) -> Seq<Seq<char>> {
    split_on_slash(trim_path_prefix(path))
}

/// What `parse_derivation_path` gives for a path: the number of components in
/// one byte followed by each component's index big-endian, or the message of
/// the `InvalidPath` error.
pub open spec fn derivation_path_bytes(path: Seq<char>) -> Result<Seq<u8>, Seq<char>> {
    let cs = path_components(path);
    if cs.len() == 0 || cs.len() > 10 {
        Err("Path must have 1-10 components"@)
    } else {
        match components_bytes(cs) {
            Ok(b) => Ok(seq![cs.len() as u8] + b),
            Err(t) => Err("Invalid number: "@ + t),
        }
    }
}

/// The views of a sequence of character vectors.
pub open spec fn char_vec_views(v: Seq<Vec<char>>) -> Seq<Seq<char>> {
    Seq::new(v.len(), |i: int| v[i]@)
}

/// Splits characters on `/`: the pieces before the last separator, and the last piece.
fn split_slash(s: &[char]) -> (r: (Vec<Vec<char>>, Vec<char>))
    ensures
        split_on_slash(s@) == char_vec_views(r.0@).push(r.1@),
        r.0@.len() <= s@.len(),
{
    let mut done: Vec<Vec<char>> = Vec::new();
    let mut current: Vec<char> = Vec::new();
    let mut i: usize = 0;
    assert(s@.take(0) =~= Seq::<char>::empty());
    assert(char_vec_views(done@).push(current@) =~= seq![Seq::<char>::empty()]);
    while i < s.len()
        invariant
            i <= s.len(),
            done@.len() <= i,
            split_on_slash(s@.take(i as int)) == char_vec_views(done@).push(current@),
        decreases s.len() - i,
    {
        let c = s[i];
        let ghost before = char_vec_views(done@);
        assert(s@.take(i + 1).drop_last() == s@.take(i as int));
        assert(s@.take(i + 1).last() == c);
        if c == '/' {
            let ghost old_view = current@;
            let old_current = current;
            done.push(old_current);
            current = Vec::new();
            assert(char_vec_views(done@) =~= before.push(old_view));
            assert(char_vec_views(done@).push(current@) =~= before.push(old_view).push(
                Seq::<char>::empty(),
            ));
        } else {
            let ghost old_current = current@;
            current.push(c);
            assert(before.push(old_current).update(before.len() as int, old_current.push(c))
                =~= before.push(current@));
        }
        i = i + 1;
    }
    assert(s@.take(s@.len() as int) == s@);
    (done, current)
}

/// Removes every leading `m/`; gives the index where the rest starts.
fn trim_prefix_start(s: &[char]) -> (r: usize)
    ensures
        r <= s.len(),
        trim_path_prefix(s@) == s@.skip(r as int),
{
    let mut i: usize = 0;
    assert(s@.skip(0) == s@);
    while i < s.len() && s.len() - i >= 2 && s[i] == 'm' && s[i + 1] == '/'
        invariant
            i <= s.len(),
            trim_path_prefix(s@) == trim_path_prefix(s@.skip(i as int)),
        decreases s.len() - i,
    {
        assert(s@.skip(i as int).skip(2) == s@.skip(i + 2));
        i = i + 2;
    }
    i
}

/// Reads one path component.
fn component_value(c: &[char]) -> (r: Option<u32>)
    ensures
        r == component_index(c@),
{
    let hardened = c.len() > 0 && c[c.len() - 1] == '\'';
    let num_len: usize = if hardened {
        c.len() - 1
    } else {
        c.len()
    };
    let digits = vstd::slice::slice_subrange(c, 0, num_len);
    assert(digits@ == component_number_text(c@));
    match parse_unsigned(digits, u32::MAX as u64) {
        None => None,
        Some(n) => {
            let n32: u32 = n as u32;
            if hardened {
                Some(n32 | HARDENED_FLAG)
            } else {
                Some(n32)
            }
        },
    }
}

/// Parses a BIP32 derivation path such as `m/44'/60'/0'/0/0` into the bytes the
/// Ethereum app expects: the number of components, then each component's index
/// big-endian, with the top bit set for hardened (`'`) components.
pub fn parse_derivation_path(path: &str) -> (r: Result<Vec<u8>, LedgerError>)
    ensures
        match r {
            Ok(v) => derivation_path_bytes(path@) == Ok::<Seq<u8>, Seq<char>>(v@),
            Err(e) => exists|m: Seq<char>|
                derivation_path_bytes(path@) == Err::<Seq<u8>, Seq<char>>(m) && e@
                    == LedgerErrorView::InvalidPath(m),
        },
{
    let chars = chars_of(path);
    let start = trim_prefix_start(chars.as_slice());
    let rest = vstd::slice::slice_subrange(chars.as_slice(), start, chars.len());
    let (done, last) = split_slash(rest);
    let ghost cs = path_components(path@);
    assert(cs == char_vec_views(done@).push(last@));
    if done.len() >= 10 {
        return Err(LedgerError::InvalidPath(owned("Path must have 1-10 components")));
    }
    let count = done.len() + 1;
    let mut result: Vec<u8> = Vec::new();
    result.push(count as u8);
    let mut i: usize = 0;
    assert(cs.take(0) =~= Seq::<Seq<char>>::empty());
    assert(result@.skip(1) =~= Seq::<u8>::empty());
    while i < count
        invariant
            cs == path_components(path@),
            count == cs.len(),
            count <= 10,
            i <= count,
            cs == char_vec_views(done@).push(last@),
            done.len() + 1 == count,
            components_bytes(cs.take(i as int)) == Ok::<Seq<u8>, Seq<char>>(result@.skip(1)),
            result@.len() >= 1,
            result@[0] == count as u8,
        decreases count - i,
    {
        let comp: &Vec<char> = if i < done.len() {
            &done[i]
        } else {
            &last
        };
        assert(comp@ == cs[i as int]);
        assert(cs.take(i + 1).drop_last() == cs.take(i as int));
        assert(cs.take(i + 1).last() == cs[i as int]);
        match component_value(comp.as_slice()) {
            None => {
                let mut msg = owned("Invalid number: ");
                let hardened = comp.len() > 0 && comp[comp.len() - 1] == '\'';
                let num_len: usize = if hardened {
                    comp.len() - 1
                } else {
                    comp.len()
                };
                let mut j: usize = 0;
                while j < num_len
                    invariant
                        j <= num_len <= comp.len(),
                        msg@ == "Invalid number: "@ + comp@.take(j as int),
                    decreases num_len - j,
                {
                    push_char(&mut msg, comp[j]);
                    j = j + 1;
                    assert(comp@.take(j as int) == comp@.take(j - 1).push(comp@[j - 1]));
                }
                assert(comp@.take(num_len as int) == component_number_text(comp@));
                let ghost t = component_number_text(cs[i as int]);
                assert(components_bytes(cs.take(i + 1)) == Err::<Seq<u8>, Seq<char>>(t));
                proof {
                    lemma_components_bytes_err_prefix(cs, (i + 1) as int);
                }
                assert(derivation_path_bytes(path@) == Err::<Seq<u8>, Seq<char>>(
                    "Invalid number: "@ + t,
                ));
                assert(msg@ == "Invalid number: "@ + t);
                return Err(LedgerError::InvalidPath(msg));
            },
            Some(v) => {
                let ghost before = result@;
                push_u32_be(&mut result, v);
                assert(result@.skip(1) == before.skip(1) + u32_be(v));
            },
        }
        i = i + 1;
    }
    assert(cs.take(count as int) == cs);
    assert(result@ == seq![count as u8] + result@.skip(1));
    Ok(result)
}

/// Once a prefix of the components fails, the whole sequence fails with the same text.
pub proof fn lemma_components_bytes_err_prefix(cs: Seq<Seq<char>>, n: int)
    requires
        0 <= n <= cs.len(),
        components_bytes(cs.take(n)) is Err,
    ensures
        components_bytes(cs) == components_bytes(cs.take(n)),
    decreases cs.len(),
{
    if n < cs.len() {
        assert(cs.drop_last().take(n) == cs.take(n));
        lemma_components_bytes_err_prefix(cs.drop_last(), n);
    } else {
        assert(cs.take(n) == cs);
    }
}

/// Each component takes four bytes.
pub proof fn lemma_components_bytes_len(cs: Seq<Seq<char>>)
    ensures
        components_bytes(cs) matches Ok(b) ==> b.len() == 4 * cs.len(),
    decreases cs.len(),
{
    if cs.len() > 0 {
        lemma_components_bytes_len(cs.drop_last());
    }
}

/// A parsed path is one count byte, between 1 and 10, followed by four bytes
/// per component: `1 + 4 * count` bytes in all.
pub proof fn law_derivation_path_layout(path: Seq<char>)
    ensures
        derivation_path_bytes(path) matches Ok(b) ==> {
            &&& 1 <= b[0] <= 10
            &&& b.len() == 1 + 4 * (b[0] as int)
            &&& b[0] == path_components(path).len()
        },
{
    lemma_components_bytes_len(path_components(path));
}

/// Builds the GET_PUBLIC_KEY command for a derivation path; `display` asks the
/// device to show the address for confirmation.
pub fn get_public_key_command(derivation_path: &str, display: bool) -> (r: Result<
    ApduCommand,
    LedgerError,
>)
    ensures
        match r {
            Ok(cmd) => derivation_path_bytes(derivation_path@) == Ok::<Seq<u8>, Seq<char>>(
                cmd.data@,
            ) && cmd.cla == CLA && cmd.ins == INS_GET_PUBLIC_KEY && cmd.p1 == (if display {
                1u8
            } else {
                0u8
            }) && cmd.p2 == 0,
            Err(e) => exists|m: Seq<char>|
                derivation_path_bytes(derivation_path@) == Err::<Seq<u8>, Seq<char>>(m) && e@
                    == LedgerErrorView::InvalidPath(m),
        },
{
    let path_data = parse_derivation_path(derivation_path)?;
    let p1: u8 = if display {
        0x01
    } else {
        0x00
    };
    let p2: u8 = 0x00;
    Ok(ApduCommand::new(INS_GET_PUBLIC_KEY, p1, p2, path_data))
}

/// The inputs on which reading a public key response would index past its data:
/// a successful response of exactly 66 bytes whose first byte is 65.
pub open spec fn public_key_response_overruns(status: u16, data: Seq<u8>) -> bool {
    status == SW_OK && data.len() == 66 && data[0] == 65
}

/// What a public key response holds: the 65-byte public key and the address bytes.
pub open spec fn public_key_parts(status: u16, data: Seq<u8>) -> Result<
    (Seq<u8>, Seq<u8>),
    LedgerErrorView,
> {
    match status_error(status) {
        Some(e) => Err(e),
        None => if data.len() < 66 {
            Err(LedgerErrorView::InvalidResponse("Public key response too short"@))
        } else if data[0] != 65 {
            Err(
                LedgerErrorView::InvalidResponse(
                    "Invalid public key length: "@ + decimal_text(data[0] as nat),
                ),
            )
        } else {
            let address_len = data[66] as int;
            if data.len() < 67 + address_len {
                Err(LedgerErrorView::InvalidResponse("Address data missing"@))
            } else {
                Ok((data.subrange(1, 66), data.subrange(67, 67 + address_len)))
            }
        },
    }
}

/// Whether `parse_public_key_response` can read this response without indexing
/// past its data.
pub fn public_key_response_in_bounds(response: &ApduResponse) -> (r: bool)
    ensures
        r == !public_key_response_overruns(response.status, response.data@),
{
    !(response.status == SW_OK && response.data.len() == 66 && response.data[0] == 65)
}

/// Parses a GET_PUBLIC_KEY response into (public key, address bytes).
pub fn parse_public_key_response(response: &ApduResponse) -> (r: Result<
    (Vec<u8>, Vec<u8>),
    LedgerError,
>)
    requires
        !public_key_response_overruns(response.status, response.data@),
    ensures
        match r {
            Ok((pk, addr)) => public_key_parts(response.status, response.data@) == Ok::<
                (Seq<u8>, Seq<u8>),
                LedgerErrorView,
            >((pk@, addr@)),
            Err(e) => public_key_parts(response.status, response.data@) == Err::<
                (Seq<u8>, Seq<u8>),
                LedgerErrorView,
            >(e@),
        },
{
    response.check_status()?;
    if response.data.len() < 66 {
        return Err(LedgerError::InvalidResponse(owned("Public key response too short")));
    }
    let pubkey_len = response.data[0];
    if pubkey_len != 65 {
        let mut msg = owned("Invalid public key length: ");
        push_decimal(&mut msg, pubkey_len as u64);
        return Err(LedgerError::InvalidResponse(msg));
    }
    let pubkey = copy_range(response.data.as_slice(), 1, 66);
    let address_len = response.data[66] as usize;
    if response.data.len() < 67 + address_len {
        return Err(LedgerError::InvalidResponse(owned("Address data missing")));
    }
    let address = copy_range(response.data.as_slice(), 67, 67 + address_len);
    Ok((pubkey, address))
}

} // verus!
