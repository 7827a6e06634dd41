use vstd::prelude::*;

pub mod shape_data;
pub mod action_stack;
pub mod auth;
pub mod shape_action;
pub mod canvas;
pub mod drag;
pub mod palette;
pub mod color_hex;
pub mod id_set;
pub mod file_ext;
pub mod file_manager;
pub mod face_map;
pub mod shape_graph;
pub mod icon_manager;
pub mod dependency_map;
pub mod component_waitlist;
pub mod input;
pub mod skin_action;
pub mod tab_action_stack;
pub mod delete_edge;
pub mod canvas_manager;
pub mod animation_manager;
pub mod model_manager;
pub mod shape_cleanup;
pub mod shape_auth;
pub mod camera_state;
pub mod file_tree;
pub mod icon_data;
pub mod icon_shapes;
pub mod waitlist_order;
pub mod icon_framing;
pub mod face_setup;
pub mod edge_laws;
pub mod input_events;
