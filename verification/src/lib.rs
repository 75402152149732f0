//! A chess-position engine: a compact bit-packed board, legal-move
//! enumeration with precomputed attack geometry, a material and
//! piece-square evaluator, Zobrist position-identity hashing, and a
//! depth-bounded negamax search with alpha-beta pruning.
//!
//! Every position mutation carries an inverse: `Game::apply` hands
//! back the token that `Game::undo` uses to reconstruct the prior
//! position bit for bit, Zobrist key included.  The pruning search is
//! proved to return the same score as prune-free minimax, and the
//! running key is proved congruent with hashing the position from
//! scratch, so transpositions hash alike.
pub mod bits;
pub mod board;
pub mod eval;
pub mod game;
pub mod movegen;
pub mod pieces;
pub mod position;
pub mod search;
pub mod zobrist;
