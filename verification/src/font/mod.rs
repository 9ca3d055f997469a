pub mod fallback_fonts;
