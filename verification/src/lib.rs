//! Import of historical tracker modules into one canonical song model.
//!
//! The library turns the raw cells of Amiga MOD, Fast Tracker XM, Scream
//! Tracker S3M and Impulse Tracker IT patterns into canonical rows of track
//! units, and unpacks compressed sample data into linear PCM:
//!
//! - the pattern slot codecs ([`patternslot`], [`xmpattern`], [`it_pattern`],
//!   [`amiga_module`]) read the cells of each format into raw slots;
//! - the effect decoders ([`mod_xm_effect`], [`it_effect`]) read the effect
//!   and volume columns of a slot as effects that still depend on the
//!   format ([`track_import_effect`]);
//! - the effect memory ([`import_memory`], [`memory_laws`]) puts the value
//!   used last in the place of a parameter of 0, along the order of the song;
//! - the canonical effects ([`effect`], [`track_unit`]) no longer depend on
//!   the format; effects of one kind in a cell are merged into one;
//! - the tracks of SID tunes ([`pattern_helper`]) are read into slots as
//!   well;
//! - the sample codec ([`bitreader`], [`sample_codec`], [`it_sample_header`])
//!   unpacks the compressed samples of IT files.
//!
//! Amounts such as speeds, depths and volumes are exact fixed-point numbers
//! ([`amount`]).

pub mod amiga_module;
pub mod amiga_sample;
pub mod amount;
pub mod bitreader;
pub mod effect;
pub mod envelope;
pub mod error;
pub mod import_memory;
pub mod instr_default;
pub mod it_edit_history;
pub mod it_effect;
pub mod it_header;
pub mod it_instrument;
pub mod it_module;
pub mod it_pattern;
pub mod it_plugins;
pub mod it_sample_header;
pub mod it_x_names;
pub mod memory_laws;
pub mod mod_xm_effect;
pub mod orders_helper;
pub mod pattern_helper;
pub mod patternslot;
pub mod period_helper;
pub mod period_helper_cache;
pub mod pitch;
pub mod sample;
pub mod sample_codec;
pub mod track_import_effect;
pub mod track_import_unit;
pub mod track_unit;
pub mod vibrato;
pub mod waveform;
pub mod xmpattern;
pub mod xorshift;
pub mod xt_track;
