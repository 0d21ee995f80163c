//! Content pipeline of a Markdown blog: front matter, slugs, the Markdown
//! event transducer, code-block rendering, post assembly and collections.

pub mod authoring;
pub mod collection;
pub mod front_matter;
pub mod highlight;
pub mod markdown;
pub mod post;
pub mod readme;
pub mod search;
pub mod slug;
pub mod text;
