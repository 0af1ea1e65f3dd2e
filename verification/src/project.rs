//! The in-memory project: the indexed pools of patterns, kits, sounds and
//! global slots, their work-buffer counterparts, and the settings object.
//! The core never owns this state for longer than one message: a dispatch
//! call borrows it exclusively and returns.

use vstd::prelude::*;

use crate::global_slot::{global_default, Global, GlobalView};
use crate::kit::{kit_default, Kit, KitView};
use crate::pattern::{pattern_default, Pattern, PatternView};
use crate::settings::{settings_default, Settings, SettingsView};
use crate::sound::{sound_default, Sound, SoundView};

verus! {

/// The whole addressable data model.
pub struct Project {
    pub patterns: Vec<Pattern>,
    pub pattern_wb: Pattern,
    pub kits: Vec<Kit>,
    pub kit_wb: Kit,
    pub pool_sounds: Vec<Sound>,
    pub work_buffer_sounds: Vec<Sound>,
    pub globals: Vec<Global>,
    pub global_wb: Global,
    pub settings: Settings,
}

/// The mathematical view of a project.
#[verifier::ext_equal]
pub ghost struct ProjectView {
    pub patterns: Seq<PatternView>,
    pub pattern_wb: PatternView,
    pub kits: Seq<KitView>,
    pub kit_wb: KitView,
    pub pool_sounds: Seq<SoundView>,
    pub work_buffer_sounds: Seq<SoundView>,
    pub globals: Seq<GlobalView>,
    pub global_wb: GlobalView,
    pub settings: SettingsView,
}

impl View for Project {
    type V = ProjectView;

    open spec fn view(&self) -> ProjectView {
        ProjectView {
            patterns: self.patterns.deep_view(),
            pattern_wb: self.pattern_wb@,
            kits: self.kits.deep_view(),
            kit_wb: self.kit_wb@,
            pool_sounds: self.pool_sounds.deep_view(),
            work_buffer_sounds: self.work_buffer_sounds.deep_view(),
            globals: self.globals.deep_view(),
            global_wb: self.global_wb@,
            settings: self.settings@,
        }
    }
}

/// The fresh state of a project: 128 patterns, 128 kits, 12 pool sounds,
/// 12 work-buffer sounds and 4 global slots, all at their defaults.
pub open spec fn project_default() -> ProjectView {
    ProjectView {
        patterns: Seq::new(128, |j: int| pattern_default(j as u8, false)),
        pattern_wb: pattern_default(0, true),
        kits: Seq::new(128, |j: int| kit_default(j as u8)),
        kit_wb: kit_default(0),
        pool_sounds: Seq::new(12, |j: int| sound_default()),
        work_buffer_sounds: Seq::new(12, |j: int| sound_default()),
        globals: Seq::new(4, |j: int| global_default(j as u8, false)),
        global_wb: global_default(0, true),
        settings: settings_default(),
    }
}

impl Project {
    /// Well-formedness of the project and everything it owns.
    pub open spec fn wf(&self) -> bool {
        &&& self.patterns@.len() == 128
        &&& (forall|i: int| 0 <= i < 128 ==> (#[trigger] self.patterns@[i]).wf())
        &&& self.pattern_wb.wf()
        &&& self.kits@.len() == 128
        &&& (forall|i: int| 0 <= i < 128 ==> (#[trigger] self.kits@[i]).wf())
        &&& self.kit_wb.wf()
        &&& self.pool_sounds@.len() == 12
        &&& (forall|i: int| 0 <= i < 12 ==> (#[trigger] self.pool_sounds@[i]).wf())
        &&& self.work_buffer_sounds@.len() == 12
        &&& (forall|i: int| 0 <= i < 12 ==> (#[trigger] self.work_buffer_sounds@[i]).wf())
        &&& self.globals@.len() == 4
        &&& (forall|i: int| 0 <= i < 4 ==> (#[trigger] self.globals@[i]).wf())
        &&& self.global_wb.wf()
        &&& self.settings.wf()
    }

    /// A fresh project.
    pub fn new() -> (r: Project)
        ensures
            r.wf(),
            r@ =~~= project_default(),
    {
        let mut patterns: Vec<Pattern> = Vec::new();
        let mut i: usize = 0;
        while i < 128
            invariant
                0 <= i <= 128,
                patterns@.len() == i,
                forall|j: int| 0 <= j < i ==> (#[trigger] patterns@[j]).wf(),
                forall|j: int| 0 <= j < i ==> (#[trigger] patterns@[j])@ =~~= pattern_default(
                    j as u8,
                    false,
                ),
            decreases 128 - i,
        {
            patterns.push(Pattern::new(i as u8, false));
            i = i + 1;
        }
        let mut kits: Vec<Kit> = Vec::new();
        let mut i: usize = 0;
        while i < 128
            invariant
                0 <= i <= 128,
                kits@.len() == i,
                forall|j: int| 0 <= j < i ==> (#[trigger] kits@[j]).wf(),
                forall|j: int| 0 <= j < i ==> (#[trigger] kits@[j])@ =~~= kit_default(j as u8),
            decreases 128 - i,
        {
            kits.push(Kit::new(i as u8));
            i = i + 1;
        }
        let mut pool_sounds: Vec<Sound> = Vec::new();
        let mut i: usize = 0;
        while i < 12
            invariant
                0 <= i <= 12,
                pool_sounds@.len() == i,
                forall|j: int| 0 <= j < i ==> (#[trigger] pool_sounds@[j]).wf(),
                forall|j: int| 0 <= j < i ==> (#[trigger] pool_sounds@[j])@ =~~= sound_default(),
            decreases 12 - i,
        {
            pool_sounds.push(Sound::new());
            i = i + 1;
        }
        let mut work_buffer_sounds: Vec<Sound> = Vec::new();
        let mut i: usize = 0;
        while i < 12
            invariant
                0 <= i <= 12,
                work_buffer_sounds@.len() == i,
                forall|j: int| 0 <= j < i ==> (#[trigger] work_buffer_sounds@[j]).wf(),
                forall|j: int|
                    0 <= j < i ==> (#[trigger] work_buffer_sounds@[j])@ =~~= sound_default(),
            decreases 12 - i,
        {
            work_buffer_sounds.push(Sound::new());
            i = i + 1;
        }
        let mut globals: Vec<Global> = Vec::new();
        let mut i: usize = 0;
        while i < 4
            invariant
                0 <= i <= 4,
                globals@.len() == i,
                forall|j: int| 0 <= j < i ==> (#[trigger] globals@[j]).wf(),
                forall|j: int| 0 <= j < i ==> (#[trigger] globals@[j])@ =~~= global_default(
                    j as u8,
                    false,
                ),
            decreases 4 - i,
        {
            globals.push(Global::new(i as u8, false));
            i = i + 1;
        }
        let r = Project {
            patterns,
            pattern_wb: Pattern::new(0, true),
            kits,
            kit_wb: Kit::new(0),
            pool_sounds,
            work_buffer_sounds,
            globals,
            global_wb: Global::new(0, true),
            settings: Settings::new(),
        };
        proof {
            assert(r@.patterns =~~= project_default().patterns) by {
                assert forall|j: int| 0 <= j < 128 implies #[trigger] r.patterns.deep_view()[j]
                    =~~= pattern_default(j as u8, false) by {
                    assert(r.patterns@[j]@ =~~= pattern_default(j as u8, false));
                }
            }
            assert(r@.kits =~~= project_default().kits) by {
                assert forall|j: int| 0 <= j < 128 implies #[trigger] r.kits.deep_view()[j]
                    =~~= kit_default(j as u8) by {
                    assert(r.kits@[j]@ =~~= kit_default(j as u8));
                }
            }
            assert(r@.pool_sounds =~~= project_default().pool_sounds) by {
                assert forall|j: int| 0 <= j < 12 implies #[trigger] r.pool_sounds.deep_view()[j]
                    =~~= sound_default() by {
                    assert(r.pool_sounds@[j]@ =~~= sound_default());
                }
            }
            assert(r@.work_buffer_sounds =~~= project_default().work_buffer_sounds) by {
                assert forall|j: int|
                    0 <= j < 12 implies #[trigger] r.work_buffer_sounds.deep_view()[j]
                    =~~= sound_default() by {
                    assert(r.work_buffer_sounds@[j]@ =~~= sound_default());
                }
            }
            assert(r@.globals =~~= project_default().globals) by {
                assert forall|j: int| 0 <= j < 4 implies #[trigger] r.globals.deep_view()[j]
                    =~~= global_default(j as u8, false) by {
                    assert(r.globals@[j]@ =~~= global_default(j as u8, false));
                }
            }
        }
        r
    }
}

} // verus!
