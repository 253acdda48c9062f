//! Conversions from native values into OSC messages and packets, and
//! accessors on messages and packets.
use crate::packet::{OscMessage, OscPacket};
use rosc::{OscBundle, OscType};
use vstd::prelude::*;
use vstd::std_specs::convert::IntoSpec;

verus! {

broadcast use vstd::string::to_string_from_display_ensures_for_str;

/// Extension methods for `OscMessage`.
pub trait OscMessageExt: Sized {
    /// The address of the message.
    spec fn address(&self) -> Seq<char>;

    /// The arguments of the message.
    spec fn arguments(&self) -> Seq<OscType>;

    /// Creates a message from an address and arguments; the arguments may be
    /// a `Vec` of values or a tuple of values convertible into `OscType`.
    fn new<T: IntoOscArgs>(addr: &str, args: T) -> (r: Self)
        ensures
            r.address() == addr@,
            r.arguments().len() == args.arg_count(),
            args.converts_known() ==> r.arguments() == args.osc_args(),
    ;

    /// Whether the address starts with `prefix`.
    fn starts_with(&self, prefix: &str) -> (r: bool)
        ensures
            r == is_prefix(prefix@, self.address()),
    ;

    /// The message as an address and a slice of arguments, for matching.
    fn as_tuple(&self) -> (r: (&str, &[OscType]))
        ensures
            r.0@ == self.address(),
            r.1@ == self.arguments(),
    ;
}

/// Whether `p` is a prefix of `s`.
pub open spec fn is_prefix(p: Seq<char>, s: Seq<char>) -> bool {
    p.len() <= s.len() && s.subrange(0, p.len() as int) == p
}

impl OscMessageExt for OscMessage {
    open spec fn address(&self) -> Seq<char> {
        self.addr@
    }

    open spec fn arguments(&self) -> Seq<OscType> {
        self.args@
    }

    fn new<T: IntoOscArgs>(addr: &str, args: T) -> (r: Self) {
        let args = args.into_osc_args();
        let addr = addr.to_string();
        OscMessage { addr, args }
    }

    fn starts_with(&self, prefix: &str) -> (r: bool) {
        let s = self.addr.as_str();
        let n = prefix.unicode_len();
        let m = s.unicode_len();
        if n > m {
            return false;
        }
        let mut i: usize = 0;
        while i < n
            invariant
                n == prefix@.len(),
                m == s@.len(),
                s@ == self.addr@,
                n <= m,
                i <= n,
                forall|j: int| 0 <= j < i ==> s@[j] == prefix@[j],
            decreases n - i,
        {
            if s.get_char(i) != prefix.get_char(i) {
                assert(s@.subrange(0, n as int)[i as int] != prefix@[i as int]);
                return false;
            }
            i = i + 1;
        }
        assert(s@.subrange(0, n as int) =~= prefix@);
        true
    }

    fn as_tuple(&self) -> (r: (&str, &[OscType])) {
        (self.addr.as_str(), self.args.as_slice())
    }
}

/// Extension methods for `OscPacket`.
pub trait OscPacketExt: Sized {
    /// The message that the packet is, if it is one.
    spec fn message_of(&self) -> Option<OscMessage>;

    /// Returns `Some(&message)` if the packet is a message, `None` otherwise.
    fn message(&self) -> (r: Option<&OscMessage>)
        ensures
            r matches Some(m) ==> self.message_of() == Some(*m),
            r is None <==> self.message_of() is None,
    ;

    /// Returns `Some(message)` if the packet is a message, `None` otherwise.
    fn into_message(self) -> (r: Option<OscMessage>)
        ensures
            r == self.message_of(),
    ;
}

impl OscPacketExt for OscPacket {
    open spec fn message_of(&self) -> Option<OscMessage> {
        match self {
            OscPacket::Message(m) => Some(*m),
            OscPacket::Bundle(_) => None,
        }
    }

    fn message(&self) -> (r: Option<&OscMessage>) {
        match self {
            OscPacket::Message(message) => Some(message),
            _ => None,
        }
    }

    fn into_message(self) -> (r: Option<OscMessage>) {
        match self {
            OscPacket::Message(message) => Some(message),
            _ => None,
        }
    }
}

/// What `Into<OscType>` makes of a value, where its conversion states it.
pub open spec fn arg_of<T: Into<OscType>>(x: T) -> OscType {
    <T as IntoSpec<OscType>>::into_spec(x)
}

/// Whether the conversion of `T` into `OscType` states its result.
pub open spec fn arg_known<T: Into<OscType>>() -> bool {
    <T as IntoSpec<OscType>>::obeys_into_spec()
}

/// Conversion of a value or a group of values into OSC arguments.
pub trait IntoOscArgs: Sized {
    /// How many arguments the value becomes.
    spec fn arg_count(&self) -> nat;

    /// Whether the conversions of the components state their results.
    spec fn converts_known(&self) -> bool;

    /// The arguments the value becomes: each component converted, in order.
    spec fn osc_args(&self) -> Seq<OscType>;

    /// Converts the value into OSC arguments, one per component, in order.
    fn into_osc_args(self) -> (r: Vec<OscType>)
        ensures
            r@.len() == self.arg_count(),
            self.converts_known() ==> r@ == self.osc_args(),
    ;
}

impl<T: Into<OscType>> IntoOscArgs for Vec<T> {
    open spec fn arg_count(&self) -> nat {
        self@.len()
    }

    open spec fn converts_known(&self) -> bool {
        arg_known::<T>()
    }

    open spec fn osc_args(&self) -> Seq<OscType> {
        self@.map_values(|x: T| arg_of(x))
    }

    fn into_osc_args(self) -> (r: Vec<OscType>) {
        let ghost orig = self@;
        let mut src = self;
        let ghost n = orig.len();
        let mut rev: Vec<OscType> = Vec::new();
        while src.len() > 0
            invariant
                n == orig.len(),
                rev@.len() + src@.len() == n,
                src@ == orig.subrange(0, src@.len() as int),
                arg_known::<T>() ==> forall|k: int|
                    0 <= k < rev@.len() ==> rev@[k] == arg_of(orig[n - 1 - k]),
            decreases src@.len(),
        {
            let a = src.pop().unwrap();
            rev.push(a.into());
        }
        let mut args: Vec<OscType> = Vec::new();
        while rev.len() > 0
            invariant
                n == orig.len(),
                rev@.len() + args@.len() == n,
                arg_known::<T>() ==> forall|k: int|
                    0 <= k < rev@.len() ==> rev@[k] == arg_of(orig[n - 1 - k]),
                arg_known::<T>() ==> forall|j: int|
                    0 <= j < args@.len() ==> args@[j] == arg_of(orig[j]),
            decreases rev@.len(),
        {
            let a = rev.pop().unwrap();
            args.push(a);
        }
        assert(arg_known::<T>() ==> args@ =~= orig.map_values(|x: T| arg_of(x)));
        args
    }
}

impl<T1: Into<OscType>> IntoOscArgs for (T1,) {
    open spec fn arg_count(&self) -> nat {
        1
    }

    open spec fn converts_known(&self) -> bool {
        arg_known::<T1>()
    }

    open spec fn osc_args(&self) -> Seq<OscType> {
        seq![arg_of(self.0)]
    }

    fn into_osc_args(self) -> (r: Vec<OscType>) {
        vec![self.0.into()]
    }
}

impl<T1: Into<OscType>, T2: Into<OscType>> IntoOscArgs for (T1, T2) {
    open spec fn arg_count(&self) -> nat {
        2
    }

    open spec fn converts_known(&self) -> bool {
        arg_known::<T1>() && arg_known::<T2>()
    }

    open spec fn osc_args(&self) -> Seq<OscType> {
        seq![arg_of(self.0), arg_of(self.1)]
    }

    fn into_osc_args(self) -> (r: Vec<OscType>) {
        vec![self.0.into(), self.1.into()]
    }
}

impl<T1: Into<OscType>, T2: Into<OscType>, T3: Into<OscType>> IntoOscArgs for (T1, T2, T3) {
    open spec fn arg_count(&self) -> nat {
        3
    }

    open spec fn converts_known(&self) -> bool {
        arg_known::<T1>() && arg_known::<T2>() && arg_known::<T3>()
    }

    open spec fn osc_args(&self) -> Seq<OscType> {
        seq![arg_of(self.0), arg_of(self.1), arg_of(self.2)]
    }

    fn into_osc_args(self) -> (r: Vec<OscType>) {
        vec![self.0.into(), self.1.into(), self.2.into()]
    }
}

impl IntoOscArgs for OscType {
    open spec fn arg_count(&self) -> nat {
        1
    }

    open spec fn converts_known(&self) -> bool {
        true
    }

    open spec fn osc_args(&self) -> Seq<OscType> {
        seq![*self]
    }

    fn into_osc_args(self) -> (r: Vec<OscType>) {
        vec![self]
    }
}

/// Conversion of a message, a bundle, a packet or an address with arguments
/// into a packet.
pub trait IntoOscPacket: Sized {
    /// Whether the value becomes a message packet.
    spec fn is_message_like(&self) -> bool;

    /// Converts the value into a packet.
    fn into_osc_packet(self) -> (r: OscPacket)
        ensures
            r is Message <==> self.is_message_like(),
    ;
}

impl IntoOscPacket for OscMessage {
    open spec fn is_message_like(&self) -> bool {
        true
    }

    fn into_osc_packet(self) -> (r: OscPacket)
        ensures
            r == OscPacket::Message(self),
    {
        OscPacket::Message(self)
    }
}

impl IntoOscPacket for OscBundle {
    open spec fn is_message_like(&self) -> bool {
        false
    }

    fn into_osc_packet(self) -> (r: OscPacket)
        ensures
            r == OscPacket::Bundle(self),
    {
        OscPacket::Bundle(self)
    }
}

impl IntoOscPacket for OscPacket {
    open spec fn is_message_like(&self) -> bool {
        self is Message
    }

    fn into_osc_packet(self) -> (r: OscPacket)
        ensures
            r == self,
    {
        self
    }
}

impl<T: IntoOscMessage> IntoOscPacket for T {
    open spec fn is_message_like(&self) -> bool {
        true
    }

    fn into_osc_packet(self) -> (r: OscPacket)
        ensures
            r matches OscPacket::Message(m) && self.message_spec(m),
    {
        OscPacket::Message(self.into_osc_message())
    }
}

/// Conversion of an `(address, arguments)` pair into a message.
pub trait IntoOscMessage: Sized {
    /// What holds of the message the value becomes.
    spec fn message_spec(&self, m: OscMessage) -> bool;

    /// Converts the value into a message.
    fn into_osc_message(self) -> (r: OscMessage)
        ensures
            self.message_spec(r),
    ;
}

impl<A: IntoOscArgs> IntoOscMessage for (&str, A) {
    open spec fn message_spec(&self, m: OscMessage) -> bool {
        &&& m.addr@ == self.0@
        &&& m.args@.len() == self.1.arg_count()
        &&& self.1.converts_known() ==> m.args@ == self.1.osc_args()
    }

    fn into_osc_message(self) -> (r: OscMessage) {
        OscMessage::new(self.0, self.1)
    }
}

} // verus!
