pub mod editor;
