//! Shape, layout and decoding logic of the Whisper log-mel front end.
//!
//! The numeric stages (windowing, FFT, mel projection, logarithm) work on
//! floating-point samples; this crate holds the parts whose behaviour is
//! exact: WAV decoding and its format check, channel grouping, padding,
//! framing and the final matrix layout. The framing and layout functions
//! are generic over the sample type so that they serve any element.
pub mod layout;
pub mod introspect;
pub mod wav;
pub mod framing;
pub mod channels;
pub mod matrix;
pub mod filterbank;
