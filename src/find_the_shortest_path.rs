use vstd::prelude::*;

use crate::game_trait::{ExitGame, GameLogic, InitGame};

verus! {

/// Width of the window, in pixels.
pub const SCREEN_WIDTH: i32 = 1024;

/// Height of the window, in pixels.
pub const SCREEN_HEIGHT: i32 = 768;

/// The role of a node on the board.
#[derive(Clone, Copy, Debug, PartialEq, Eq, Structural)]
pub enum PathNodeType {
    Normal,
    StartNode,
    DestinationNode,
    PathResultNode,
}

/// A position on the board, in whole pixels.
#[derive(Clone, Copy, Debug, PartialEq, Eq, Structural)]
pub struct Point {
    pub x: i32,
    pub y: i32,
}

/// A node placed on the board.
#[derive(Clone, Copy, Debug, PartialEq, Eq, Structural)]
pub struct PathNode {
    pub node_type: PathNodeType,
    pub pos: Point,
}

/// What a click on the board does.
#[derive(Clone, Copy, Debug, PartialEq, Eq, Structural)]
pub enum GameStatus {
    /// Draw all nodes, and the shortest path if there is one.
    Normal,
    /// Draw an edge from the current node to the mouse; a click creates a
    /// new node.
    CreatingNodes,
    /// Highlight the node under the mouse; a click makes it the start node.
    SelectStartNode,
    /// Highlight the node under the mouse; a click makes it the destination,
    /// after which the shortest path is searched for.
    SelectDestinationNode,
}

/// The board of the shortest-path game: the nodes placed so far, the chosen
/// start and destination, and the path found between them.
pub struct PathBoard {
    pub shortest_path: Option<Vec<PathNode>>,
    pub path_nodes: Option<Vec<PathNode>>,
    pub start_node: Option<PathNode>,
    pub destination_node: Option<PathNode>,
}

impl InitGame for PathBoard {
    /// An empty board: no node, no start, no destination, no path.
    fn init_game() -> (r: Self)
        ensures
            r.shortest_path is None,
            r.path_nodes is None,
            r.start_node is None,
            r.destination_node is None,
    {
        PathBoard { shortest_path: None, path_nodes: None, start_node: None, destination_node: None }
    }
}

impl GameLogic for PathBoard {
    /// Nothing on the board changes from one frame to the next.
    fn update_tick(&mut self)
        ensures
            *final(self) == *old(self),
    {
    }
}

impl ExitGame for PathBoard {}

} // verus!
