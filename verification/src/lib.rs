//! Decoding of raw octet streams into an ordered chain of protocol layers of
//! the Internet protocol suite: Ethernet, then ARP, IPv4 or IPv6, then ICMP,
//! TCP or UDP, then TLS, HTTP or NTP.
//!
//! Every decoder first looks at the end of the chain decoded so far and
//! turns the input down unless its ancestors announce it; then it reads its
//! header field by field. A decoder ends in one of three ways: it decodes a
//! layer, it asks for more input, or it turns the input down. The tree in
//! [`tree`] strings the decoders together and never fails: input that is
//! cut short or malformed only makes the chain shorter.
pub mod bytes;
pub mod flow;
pub mod layer;
pub mod layer1;
pub mod layer2;
pub mod layer3;
pub mod layer4;
pub mod outcome;
pub mod prelude;
pub mod tree;
