//! Pico Potion: the logic of a small shared-notes web application. Pages are
//! Markdown texts with a title; the library renders the editor page, escapes
//! every value it embeds in HTML or in a script, decides how the server
//! answers each request and reads its command line.
pub mod cli;
pub mod escape;
pub mod memory;
pub mod numbers;
pub mod pages;
pub mod render;
pub mod template;
pub mod text;
