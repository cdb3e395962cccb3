use vstd::prelude::*;
use crate::ui::{Bounds, Btn, contains};
use crate::events::{Event, EventManager};

verus! {

/// The player's settings and the menu that changes them, owned by the host.
#[derive(Debug)]
pub struct Global {
    pub sfx: bool,
    pub music: bool,
    pub options_button: Btn,
    pub options: bool,
    pub info_button: Btn,
    pub info: bool,
    pub menu_bounds: Bounds,
    pub music_toggle: Btn,
    pub sfx_toggle: Btn,
    pub reset_button: Btn,
    pub save_button: Btn,
    pub autosave: bool,
    pub autosave_toggle: Btn,
}

/// A pointer press outside the open menu closes it.
pub open spec fn closes_menu(menu: Bounds, p: (i32, i32), just_pressed: bool) -> bool {
    just_pressed && !contains(menu, p)
}

/// `q`, with `e` appended when `c` holds.
pub open spec fn push_if(q: Seq<Event>, c: bool, e: Event) -> Seq<Event> {
    if c {
        q.push(e)
    } else {
        q
    }
}

/// A panel flag after its button and outside presses are handled.
pub open spec fn panel_after(open: bool, clicked: bool, outside: bool) -> bool {
    if clicked {
        !open
    } else if outside && open {
        false
    } else {
        open
    }
}

impl Global {
    /// Sound and music on, autosave on, menus closed.
    pub fn new() -> (r: Global)
        ensures
            r.sfx && r.music && r.autosave,
            !r.options && !r.info,
            r.menu_bounds == (Bounds { x: 0i32, y: 26i32, w: 96i32, h: 96i32 }),
    {
        let menu = Bounds::new(0, 26, 96, 96);
        let spacing: i32 = 24;
        Global {
            sfx: true,
            music: true,
            options_button: Btn::new(String::from_str("gear"), Bounds::new(0, 0, 24, 24), false, 1),
            options: false,
            info_button: Btn::new(String::from_str("i"), Bounds::new(26, 0, 24, 24), false, 1),
            info: false,
            menu_bounds: menu,
            music_toggle: Btn::new(String::from_str("toggle"), Bounds::new(16, 26 + spacing / 3, 16, 16), false, 1),
            sfx_toggle: Btn::new(String::from_str("toggle"), Bounds::new(16, 26 + spacing / 3 + spacing, 16, 16), false, 1),
            save_button: Btn::new(String::from_str("SAVE"), Bounds::new(12, 26 + 6 + spacing * 2, 72, 16), true, 1),
            reset_button: Btn::new(String::from_str("RESET SAVE"), Bounds::new(12, 26 + 2 + spacing * 3, 72, 16), true, 1),
            autosave: true,
            autosave_toggle: Btn::new(String::from_str("toggle"), Bounds::new(16, 26 + spacing / 3 + spacing, 16, 16), false, 1),
        }
    }

    /// The gear and info buttons toggle their panels; a press outside the menu closes
    /// an open one.
    fn toggle_panels(&mut self, p: (i32, i32), pressed: bool, just_pressed: bool)
        ensures
            final(self).options == panel_after(old(self).options, old(self).options_button.on_click_spec(p, just_pressed),
                closes_menu(old(self).menu_bounds, p, just_pressed)),
            final(self).info == panel_after(old(self).info, old(self).info_button.on_click_spec(p, just_pressed),
                closes_menu(old(self).menu_bounds, p, just_pressed)),
            final(self).music == old(self).music,
            final(self).autosave == old(self).autosave,
            final(self).menu_bounds == old(self).menu_bounds,
            final(self).music_toggle == old(self).music_toggle,
            final(self).save_button == old(self).save_button,
            final(self).reset_button == old(self).reset_button,
            final(self).autosave_toggle == old(self).autosave_toggle,
    {
        self.options_button.update(p, pressed);
        if self.options_button.on_click(p, just_pressed) {
            self.options = !self.options;
        } else if just_pressed && !self.menu_bounds.intersects_xy(p) && self.options {
            self.options = false;
        }
        self.info_button.update(p, pressed);
        if self.info_button.on_click(p, just_pressed) {
            self.info = !self.info;
        } else if just_pressed && !self.menu_bounds.intersects_xy(p) && self.info {
            self.info = false;
        }
    }

    /// The options panel: the music and autosave toggles flip their setting, SAVE raises
    /// SaveGame, and RESET SAVE raises ResetGame and closes the panel.
    fn use_options(&mut self, p: (i32, i32), pressed: bool, just_pressed: bool, event_manager: &mut EventManager)
        ensures
            final(self).music == (old(self).music != old(self).music_toggle.on_click_spec(p, just_pressed)),
            final(self).autosave == (old(self).autosave != old(self).autosave_toggle.on_click_spec(p, just_pressed)),
            final(self).options == (old(self).options && !old(self).reset_button.on_click_spec(p, just_pressed)),
            final(self).info == old(self).info,
            final(event_manager).pending()@ == push_if(
                push_if(old(event_manager).pending()@, old(self).save_button.on_click_spec(p, just_pressed), Event::SaveGame),
                old(self).reset_button.on_click_spec(p, just_pressed),
                Event::ResetGame,
            ),
            final(event_manager).dialogue == old(event_manager).dialogue,
            final(event_manager).over == old(event_manager).over,
    {
        let music_click = self.music_toggle.on_click(p, just_pressed);
        let save_click = self.save_button.on_click(p, just_pressed);
        let reset_click = self.reset_button.on_click(p, just_pressed);
        let autosave_click = self.autosave_toggle.on_click(p, just_pressed);
        self.music_toggle.update(p, pressed);
        self.save_button.update(p, pressed);
        self.reset_button.update(p, pressed);
        self.autosave_toggle.update(p, pressed);
        if music_click {
            self.music = !self.music;
            self.music_toggle.string = if self.music {
                String::from_str("toggle")
            } else {
                String::new()
            };
        }
        if save_click {
            event_manager.trigger(Event::SaveGame);
        }
        if reset_click {
            event_manager.trigger(Event::ResetGame);
            self.options = false;
        }
        if autosave_click {
            self.autosave = !self.autosave;
            self.autosave_toggle.string = if self.autosave {
                String::from_str("toggle")
            } else {
                String::new()
            };
        }
    }

    /// One tick of the menu under pointer `p`: the panels are toggled, then the options
    /// panel, if open, is used. Returns whether music should be playing.
    pub fn update(&mut self, p: (i32, i32), pressed: bool, just_pressed: bool, event_manager: &mut EventManager) -> (music: bool)
        ensures
            music == final(self).music,
            final(self).info == panel_after(old(self).info, old(self).info_button.on_click_spec(p, just_pressed),
                closes_menu(old(self).menu_bounds, p, just_pressed)),
            ({
                let open = panel_after(old(self).options, old(self).options_button.on_click_spec(p, just_pressed),
                    closes_menu(old(self).menu_bounds, p, just_pressed));
                &&& final(self).options == (open && !old(self).reset_button.on_click_spec(p, just_pressed))
                &&& final(self).music == (old(self).music != (open && old(self).music_toggle.on_click_spec(p, just_pressed)))
                &&& final(self).autosave == (old(self).autosave != (open && old(self).autosave_toggle.on_click_spec(p, just_pressed)))
                &&& final(event_manager).pending()@ == push_if(
                    push_if(old(event_manager).pending()@, open && old(self).save_button.on_click_spec(p, just_pressed), Event::SaveGame),
                    open && old(self).reset_button.on_click_spec(p, just_pressed),
                    Event::ResetGame,
                )
            }),
            final(event_manager).dialogue == old(event_manager).dialogue,
            final(event_manager).over == old(event_manager).over,
    {
        self.toggle_panels(p, pressed, just_pressed);
        if self.options {
            self.use_options(p, pressed, just_pressed, event_manager);
        }
        self.music
    }
}

} // verus!
