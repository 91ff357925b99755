//! Actions on the windows of the program.

/// Opens the Add Cards dialog, filled in with a note. The answer is the ID
/// of the note that would be added if the user confirmed the dialog.
pub mod gui_add_cards;

/// The card under review, if there is one.
pub mod gui_current_card;
