//! Bluetooth device addresses and their two byte orders.
use vstd::prelude::*;
use vstd::string::{StringExecFns, StringSliceAdditionalSpecFns};

verus! {

/// A 6-byte long MAC address, held in wire (display) order.
#[derive(Copy, Clone, Debug, PartialEq, Eq)]
pub struct BtAddr(pub [u8; 6]);

impl View for BtAddr {
    type V = Seq<u8>;

    open spec fn view(&self) -> Seq<u8> {
        self.0@
    }
}

/// The address with its six bytes in the opposite order: the order in which
/// the Linux lower layers hold an address that is displayed in network order.
pub open spec fn host_byteorder(a: Seq<u8>) -> Seq<u8> {
    seq![a[5], a[4], a[3], a[2], a[1], a[0]]
}

impl BtAddr {
    /// Returns the MAC address `00:00:00:00:00:00`, which names the local adapter.
    pub fn any() -> (r: BtAddr)
        ensures
            r@ == seq![0u8, 0u8, 0u8, 0u8, 0u8, 0u8],
    {
        let r = BtAddr([0, 0, 0, 0, 0, 0]);
        assert(r@ =~= seq![0u8, 0u8, 0u8, 0u8, 0u8, 0u8]);
        r
    }

    /// Converts between network byte order and the byte order of the host's
    /// Bluetooth layers. The conversion is its own inverse.
    pub fn convert_host_byteorder(self) -> (r: BtAddr)
        ensures
            r@ == host_byteorder(self@),
    {
        let b = self.0;
        let r = BtAddr([b[5], b[4], b[3], b[2], b[1], b[0]]);
        assert(r@ =~= host_byteorder(self@));
        r
    }
}

/// The value of an ASCII hexadecimal digit, of either case.
pub open spec fn hex_value(c: u8) -> Option<u8> {
    if 0x30 <= c <= 0x39 {
        Some((c - 0x30) as u8)
    } else if 0x41 <= c <= 0x46 {
        Some((c - 0x41 + 10) as u8)
    } else if 0x61 <= c <= 0x66 {
        Some((c - 0x61 + 10) as u8)
    } else {
        None
    }
}

/// Whether `s` reads `XX:XX:XX:XX:XX:XX`, each `X` a hexadecimal digit.
pub open spec fn is_addr_text(s: Seq<u8>) -> bool {
    &&& s.len() == 17
    &&& forall|g: int|
        0 <= g < 6 ==> (#[trigger] hex_value(s[3 * g])) is Some && hex_value(s[3 * g + 1]) is Some
    &&& forall|g: int| 0 <= g < 5 ==> #[trigger] s[3 * g + 2] == 0x3A
}

/// The bytes that the text `s` of an address gives.
pub open spec fn addr_of_text(s: Seq<u8>) -> Seq<u8> {
    Seq::new(
        6,
        |g: int| (hex_value(s[3 * g])->0 * 16 + hex_value(s[3 * g + 1])->0) as u8,
    )
}

/// The upper-case hexadecimal digit of `n`, below 16.
pub open spec fn hex_digit(n: u8) -> char {
    if n < 10 {
        ((n + 0x30) as u8) as char
    } else {
        ((n - 10 + 0x41) as u8) as char
    }
}

/// The two digits of the byte `b`.
pub open spec fn hex_pair(b: u8) -> Seq<char> {
    seq![hex_digit(b / 16), hex_digit(b % 16)]
}

/// The text of the first `n` bytes of `a`, separated by colons.
pub open spec fn text_prefix(a: Seq<u8>, n: nat) -> Seq<char>
    decreases n,
{
    if n == 0 {
        Seq::empty()
    } else if n == 1 {
        hex_pair(a[0])
    } else {
        text_prefix(a, (n - 1) as nat) + seq![':'] + hex_pair(a[n - 1])
    }
}

/// The text `XX:XX:XX:XX:XX:XX` of the address `a`, in upper case.
pub open spec fn addr_text(a: Seq<u8>) -> Seq<char> {
    text_prefix(a, 6)
}

/// The string of one hexadecimal digit.
fn digit_str(n: u8) -> (r: &'static str)
    requires
        n < 16,
    ensures
        r@ == seq![hex_digit(n)],
{
    let r = match n {
        0 => "0",
        1 => "1",
        2 => "2",
        3 => "3",
        4 => "4",
        5 => "5",
        6 => "6",
        7 => "7",
        8 => "8",
        9 => "9",
        10 => "A",
        11 => "B",
        12 => "C",
        13 => "D",
        14 => "E",
        _ => "F",
    };
    proof {
        reveal_strlit("0");
        reveal_strlit("1");
        reveal_strlit("2");
        reveal_strlit("3");
        reveal_strlit("4");
        reveal_strlit("5");
        reveal_strlit("6");
        reveal_strlit("7");
        reveal_strlit("8");
        reveal_strlit("9");
        reveal_strlit("A");
        reveal_strlit("B");
        reveal_strlit("C");
        reveal_strlit("D");
        reveal_strlit("E");
        reveal_strlit("F");
        assert(r@ =~= seq![hex_digit(n)]);
    }
    r
}

/// The value of the hexadecimal digit `c`.
fn digit_value(c: u8) -> (r: Option<u8>)
    ensures
        r == hex_value(c),
{
    if 0x30 <= c && c <= 0x39 {
        Some(c - 0x30)
    } else if 0x41 <= c && c <= 0x46 {
        Some(c - 0x41 + 10)
    } else if 0x61 <= c && c <= 0x66 {
        Some(c - 0x61 + 10)
    } else {
        None
    }
}

impl BtAddr {
    /// Converts a string of the format `XX:XX:XX:XX:XX:XX`, with digits of
    /// either case, to a `BtAddr`.
    pub fn from_str(s: &str) -> (r: Result<BtAddr, ()>)
        ensures
            r is Ok <==> is_addr_text(s.spec_bytes()),
            r matches Ok(a) ==> a@ == addr_of_text(s.spec_bytes()),
    {
        let b = s.as_bytes();
        if b.len() != 17 {
            return Err(());
        }
        let mut out: [u8; 6] = [0; 6];
        let mut g: usize = 0;
        while g < 6
            invariant
                g <= 6,
                b@ == s.spec_bytes(),
                b@.len() == 17,
                forall|h: int|
                    0 <= h < g ==> (#[trigger] hex_value(b@[3 * h])) is Some && hex_value(
                        b@[3 * h + 1],
                    ) is Some,
                forall|h: int| 0 <= h < g && h < 5 ==> #[trigger] b@[3 * h + 2] == 0x3A,
                forall|h: int| 0 <= h < g ==> out@[h] == #[trigger] addr_of_text(b@)[h],
            decreases 6 - g,
        {
            let high = digit_value(b[3 * g]);
            let low = digit_value(b[3 * g + 1]);
            if high.is_none() || low.is_none() {
                assert(!(hex_value(b@[3 * g as int]) is Some && hex_value(b@[3 * g as int + 1]) is Some));
                return Err(());
            }
            if g < 5 && b[3 * g + 2] != 0x3A {
                assert(b@[3 * g as int + 2] != 0x3A);
                return Err(());
            }
            let h = high.unwrap();
            let l = low.unwrap();
            out[g] = h * 16 + l;
            g = g + 1;
        }
        let a = BtAddr(out);
        assert(a@ =~= addr_of_text(s.spec_bytes()));
        Ok(a)
    }

    /// Converts the address to a string of the format `XX:XX:XX:XX:XX:XX`,
    /// in upper case.
    pub fn to_string(self) -> (r: String)
        ensures
            r@ == addr_text(self@),
    {
        let mut text = String::new();
        let mut i: usize = 0;
        while i < 6
            invariant
                i <= 6,
                self@.len() == 6,
                text@ == text_prefix(self@, i as nat),
            decreases 6 - i,
        {
            let b = self.0[i];
            if i > 0 {
                text.append(":");
                proof {
                    reveal_strlit(":");
                }
            }
            text.append(digit_str(b / 16));
            text.append(digit_str(b % 16));
            assert(text@ =~= text_prefix(self@, (i + 1) as nat));
            i = i + 1;
        }
        text
    }
}

/// The text of an address, character by character.
proof fn lemma_addr_text_chars(a: Seq<u8>)
    requires
        a.len() == 6,
    ensures
        addr_text(a).len() == 17,
        forall|g: int|
            0 <= g < 6 ==> addr_text(a)[3 * g] == hex_digit(#[trigger] a[g] / 16) && addr_text(a)[3
                * g + 1] == hex_digit(a[g] % 16),
        forall|g: int| 0 <= g < 5 ==> #[trigger] addr_text(a)[3 * g + 2] == ':',
{
    reveal_with_fuel(text_prefix, 7);
    let t = addr_text(a);
    assert(t =~= seq![
        hex_digit(a[0] / 16), hex_digit(a[0] % 16), ':',
        hex_digit(a[1] / 16), hex_digit(a[1] % 16), ':',
        hex_digit(a[2] / 16), hex_digit(a[2] % 16), ':',
        hex_digit(a[3] / 16), hex_digit(a[3] % 16), ':',
        hex_digit(a[4] / 16), hex_digit(a[4] % 16), ':',
        hex_digit(a[5] / 16), hex_digit(a[5] % 16),
    ]);
}

/// Reading back the text of an address gives the address: a string that
/// holds what `to_string` returns is accepted by `from_str`, which returns
/// the same bytes.
pub proof fn lemma_text_round_trip(a: BtAddr, s: &str)
    requires
        s@ == addr_text(a@),
    ensures
        is_addr_text(s.spec_bytes()),
        addr_of_text(s.spec_bytes()) == a@,
{
    lemma_addr_text_chars(a@);
    let t = s@;
    assert forall|i: int| 0 <= i < t.len() implies '\0' <= #[trigger] t[i] <= '\u{7f}' by {
        let g = i / 3;
        assert(0 <= g < 6);
        if i == 3 * g {
            assert(t[i] == hex_digit(a@[g] / 16));
        } else if i == 3 * g + 1 {
            assert(t[i] == hex_digit(a@[g] % 16));
        } else {
            assert(i == 3 * g + 2 && g < 5);
            assert(addr_text(a@)[3 * g + 2] == ':');
        }
    }
    assert(vstd::string::is_ascii(s));
    vstd::string::is_ascii_spec_bytes(s);
    let b = s.spec_bytes();
    assert(b.len() == 17);
    assert forall|g: int| 0 <= g < 6 implies (#[trigger] hex_value(b[3 * g])) == Some(a@[g] / 16)
        && hex_value(b[3 * g + 1]) == Some(a@[g] % 16) by {
        assert(b[3 * g] == t[3 * g] as u8);
        assert(b[3 * g + 1] == t[3 * g + 1] as u8);
    }
    assert forall|g: int| 0 <= g < 5 implies #[trigger] b[3 * g + 2] == 0x3A by {
        assert(b[3 * g + 2] == t[3 * g + 2] as u8);
    }
    assert(addr_of_text(b) =~= a@);
}

/// Converting an address to host byte order and converting the result back
/// gives the address that was started from.
pub proof fn lemma_byteorder_round_trip(a: BtAddr)
    ensures
        host_byteorder(host_byteorder(a@)) == a@,
{
    assert(host_byteorder(host_byteorder(a@)) =~= a@);
}

/// A device with its name and address.
#[derive(Debug, Clone, PartialEq, Eq)]
pub struct BtDevice {
    /// The name of the device.
    pub name: String,
    /// The MAC address of the device.
    pub addr: BtAddr,
}

impl BtDevice {
    /// Creates a new `BtDevice` from a name and an address.
    pub fn new(name: String, addr: BtAddr) -> (r: BtDevice)
        ensures
            r.name == name,
            r.addr == addr,
    {
        BtDevice { name, addr }
    }
}

/// The Bluetooth protocols that sockets of this library speak.
#[derive(Clone, Copy, Debug, PartialEq, Eq, Structural)]
pub enum BtProtocol {
    /// Serial RFCOMM connection to a bluetooth device.
    RFCOMM,
}

} // verus!
