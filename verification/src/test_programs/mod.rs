//! Small programs to try the machine on.

pub mod default_sprites;
