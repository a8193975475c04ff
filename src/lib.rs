pub mod cabal;
pub mod text;
pub mod theorems;
