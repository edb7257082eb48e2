//! A point-to-point tunnel core: a repeating-key XOR codec and the decision
//! logic of the two packet pumps that relay raw IP packets between a virtual
//! network device and a UDP peer.

pub mod codec;
pub mod relay;
