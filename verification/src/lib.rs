//! Git hosting provider detection, Gitea/Forgejo URL handling and the pure
//! decision logic around the Gitea REST client and the Mistral Vibe executor.

pub mod text;
pub mod types;
pub mod url_parts;
pub mod detection;
pub mod gitea;
pub mod executors;
