//! Audio conversion: IMA ADPCM in, G.711 A-law out.

pub mod adpcm;
pub mod alaw;
pub mod cmdline;
