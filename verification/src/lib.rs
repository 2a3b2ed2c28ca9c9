//! Verified codecs and wire formats of common Internet protocols.
#![allow(unused_imports)]

pub mod text;
pub mod inet;
pub mod octets;
pub mod http;
pub mod dns;
pub mod ldap;
pub mod rtcp;
pub mod rtp;
pub mod imf;
pub mod rtsp;
pub mod sdp;
pub mod sasl;
pub mod otlp;
pub mod metrics;
pub mod exporter;
pub mod config;
pub mod tracing;
