//! Verified core of the Open Interpreter command line.
pub mod conversation;
pub mod conversation_laws;
pub mod daemon;
pub mod edit_laws;
pub mod editor;
pub mod editor_laws;
pub mod editor_session;
pub mod home;
pub mod json;
pub mod launch;
pub mod launch_laws;
pub mod lines;
pub mod message_laws;
pub mod request;
pub mod request_laws;
pub mod routing;
pub mod routing_laws;
pub mod session_laws;
pub mod startup_status;
pub mod text;
pub mod text_laws;
pub mod tools;
pub mod undo;
