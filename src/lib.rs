//! Game logic for two small windowed demos: a "Tron"-style player that moves
//! around a fixed-size window under keyboard control, and the board of a
//! shortest-path visualiser. Windowing, input polling and drawing are left to
//! the program that embeds this library; everything here works on plain
//! values.
pub mod find_the_shortest_path;
pub mod game_trait;
pub mod tron_game;
