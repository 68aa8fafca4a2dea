//! What holds of finding an app's window.

use crate::config::AppConfig;
use crate::pattern;
use crate::text;
use crate::wm::types;
use crate::wm::ManagedWindow;
use vstd::prelude::*;

verus! {

proof fn lemma_last_slash_after(before: Seq<char>, name: Seq<char>)
    requires
        forall|i: int| 0 <= i < name.len() ==> #[trigger] name[i] != '/',
    ensures
        text::last_slash(before + name) == text::last_slash(before),
    decreases name.len(),
{
    if name.len() > 0 {
        let all = before + name;
        assert(all.last() == name[name.len() - 1]);
        assert(all.drop_last() =~= before + name.drop_last());
        lemma_last_slash_after(before, name.drop_last());
    } else {
        assert(before + name =~= before);
    }
}

/// Where a program lies does not matter for finding its window, only what it is called.
pub proof fn law_only_the_last_component_counts(directory: Seq<char>, name: Seq<char>)
    requires
        name.len() > 0,
        name != seq!['.'],
        name != seq!['.', '.'],
        forall|i: int| 0 <= i < name.len() ==> #[trigger] name[i] != '/',
    ensures
        types::filename_matcher(directory + seq!['/'] + name) == text::lowered(name),
        types::filename_matcher(name) == text::lowered(name),
{
    let before = directory + seq!['/'];
    lemma_last_slash_after(before, name);
    assert(text::last_slash(before) == directory.len());
    assert((before + name).skip(directory.len() as int + 1) =~= name);
    lemma_last_slash_after(Seq::empty(), name);
    assert(Seq::<char>::empty() + name =~= name);
    assert(name.skip(0) =~= name);
}

/// A slash at the end of a path does not matter, nor does a component that stands for the directory
/// itself. A path that leads upwards at its end is no name of a program, and stands for itself.
pub proof fn law_end_of_a_path_does_not_matter(path: Seq<char>)
    ensures
        text::final_component(path + seq!['/']) == text::final_component(path),
        text::final_component(path + seq!['/', '.']) == text::final_component(path),
        text::final_component(path + seq!['/', '.', '.']) is None,
        types::filename_matcher(path + seq!['/', '.', '.']) == text::lowered(
            path + seq!['/', '.', '.'],
        ),
{
    let slashed = path + seq!['/'];
    assert(text::last_slash(slashed) == path.len());
    assert(slashed.skip(path.len() as int + 1).len() == 0);
    assert(slashed.take(path.len() as int) =~= path);
    let dotted = path + seq!['/', '.'];
    assert(dotted.drop_last() =~= slashed);
    assert(dotted.last() == '.');
    assert(text::last_slash(dotted) == path.len());
    assert(dotted.skip(path.len() as int + 1) =~= seq!['.']);
    assert(dotted.take(path.len() as int) =~= path);
    let upward = path + seq!['/', '.', '.'];
    assert(upward.drop_last() =~= dotted);
    assert(upward.last() == '.');
    assert(text::last_slash(upward) == path.len());
    assert(upward.skip(path.len() as int + 1) =~= seq!['.', '.']);
    assert(seq!['.', '.'].len() != seq!['.'].len());
}

/// A window is found by an app's file name whatever letters are capitals in what identifies it.
pub proof fn law_file_names_are_found_in_any_case(
    app: AppConfig,
    window: ManagedWindow,
    other: ManagedWindow,
)
    requires
        text::lowered(window.desktop_file_name@) == text::lowered(other.desktop_file_name@),
        text::lowered(window.resource_class@) == text::lowered(other.resource_class@),
        text::lowered(window.resource_name@) == text::lowered(other.resource_name@),
    ensures
        types::filename_hit(window, app) == types::filename_hit(other, app),
{
}

/// An expression that is set has to match, and the file name does not matter then.
pub proof fn law_expressions_have_the_say(app: AppConfig, window: ManagedWindow)
    ensures
        types::process_hit(window, app) == Some(false) ==> !types::window_matches(window, app),
        types::title_hit(window, app) == Some(false) ==> !types::window_matches(window, app),
        (app.process_name is Some || app.window_title is Some) && types::process_hit(window, app)
            != Some(false) && types::title_hit(window, app) != Some(false)
            ==> types::window_matches(window, app),
        app.process_name is None && app.window_title is None ==> types::window_matches(window, app)
            == types::filename_hit(window, app),
{
}

/// The window that is picked is one of those listed, it belongs to the app, and none that is
/// listed before it does.
pub proof fn law_first_match_is_picked(windows: Seq<ManagedWindow>, app: AppConfig)
    requires
        types::matching(windows, app).len() > 0,
    ensures
        exists|i: int|
            0 <= i < windows.len() && types::matching(windows, app)[0] == #[trigger] windows[i]
                && types::window_matches(windows[i], app) && forall|j: int|
                0 <= j < i ==> !types::window_matches(#[trigger] windows[j], app),
    decreases windows.len(),
{
    reveal(Seq::filter);
    let before = windows.drop_last();
    let found = types::matching(before, app);
    if found.len() > 0 {
        law_first_match_is_picked(before, app);
        let i = choose|i: int|
            0 <= i < before.len() && found[0] == #[trigger] before[i] && types::window_matches(
                before[i],
                app,
            ) && forall|j: int| 0 <= j < i ==> !types::window_matches(#[trigger] before[j], app);
        assert(types::matching(windows, app)[0] == windows[i]);
        assert forall|j: int| 0 <= j < i implies !types::window_matches(
            #[trigger] windows[j],
            app,
        ) by {
            assert(before[j] == windows[j]);
        }
    } else {
        lemma_none_match(before, app);
        let last = windows.len() - 1;
        assert(types::matching(windows, app)[0] == windows[last]);
        assert forall|j: int| 0 <= j < last implies !types::window_matches(
            #[trigger] windows[j],
            app,
        ) by {
            assert(before[j] == windows[j]);
        }
    }
}

/// A window belongs to an app with a process expression alone exactly where the expression finds
/// something in one of the three fields that identify the window: any one of them suffices, and
/// where none does the window is not the app's. The file name and the caption do not matter.
pub proof fn law_one_identifying_field_suffices(app: AppConfig, window: ManagedWindow)
    requires
        app.process_name is Some,
        app.window_title is None,
    ensures
        ({
            let re = app.process_name->0;
            &&& pattern::regex_finds(re, window.desktop_file_name@) ==> types::window_matches(
                window,
                app,
            )
            &&& pattern::regex_finds(re, window.resource_class@) ==> types::window_matches(
                window,
                app,
            )
            &&& pattern::regex_finds(re, window.resource_name@) ==> types::window_matches(
                window,
                app,
            )
            &&& types::window_matches(window, app) ==> pattern::regex_finds(
                re,
                window.desktop_file_name@,
            ) || pattern::regex_finds(re, window.resource_class@) || pattern::regex_finds(
                re,
                window.resource_name@,
            )
        }),
{
}

/// A window belongs to an app with a title expression alone exactly where the expression finds
/// something in the window's caption, whatever else identifies the window or the app.
pub proof fn law_title_is_the_caption(app: AppConfig, window: ManagedWindow)
    requires
        app.process_name is None,
        app.window_title is Some,
    ensures
        types::window_matches(window, app) == pattern::regex_finds(
            app.window_title->0,
            window.caption@,
        ),
{
}

/// Where an app has both expressions, a window is the app's exactly where it would be by each of
/// them alone.
pub proof fn law_both_expressions_have_to_match(
    app: AppConfig,
    by_process: AppConfig,
    by_title: AppConfig,
    window: ManagedWindow,
)
    requires
        app.process_name is Some,
        app.window_title is Some,
        by_process.process_name == app.process_name,
        by_process.window_title is None,
        by_title.process_name is None,
        by_title.window_title == app.window_title,
    ensures
        types::window_matches(window, app) == (types::window_matches(window, by_process)
            && types::window_matches(window, by_title)),
{
}

/// A window belongs to an app that has no expression exactly where one of the three fields that
/// identify the window is what the app's program is called, but for capitals; an app without a
/// file name has no window then.
pub proof fn law_file_name_is_an_identifying_field(
    app: AppConfig,
    window: ManagedWindow,
    directory: Seq<char>,
    name: Seq<char>,
)
    requires
        app.process_name is None,
        app.window_title is None,
        name.len() > 0,
        name != seq!['.'],
        name != seq!['.', '.'],
        forall|i: int| 0 <= i < name.len() ==> #[trigger] name[i] != '/',
    ensures
        app.filename is None ==> !types::window_matches(window, app),
        app.filename is Some && (app.filename->0@ == name || app.filename->0@ == directory + seq![
            '/',
        ] + name) ==> (types::window_matches(window, app) <==> {
            ||| text::lowered(window.desktop_file_name@) == text::lowered(name)
            ||| text::lowered(window.resource_class@) == text::lowered(name)
            ||| text::lowered(window.resource_name@) == text::lowered(name)
        }),
{
    law_only_the_last_component_counts(directory, name);
}

/// Every listed window that belongs to an app counts once, and no other one does; the first is
/// picked before any that comes later.
pub proof fn law_every_match_counts_once(
    windows: Seq<ManagedWindow>,
    next: ManagedWindow,
    app: AppConfig,
)
    ensures
        types::matching(Seq::empty(), app).len() == 0,
        ({
            let before = types::matching(windows, app);
            let after = types::matching(windows.push(next), app);
            &&& after.len() == before.len() + if types::window_matches(next, app) {
                1int
            } else {
                0
            }
            &&& before.len() > 0 ==> after[0] == before[0]
            &&& before.len() == 0 && types::window_matches(next, app) ==> after[0] == next
        }),
{
    reveal(Seq::filter);
    assert(windows.push(next).drop_last() =~= windows);
}

proof fn lemma_none_match(windows: Seq<ManagedWindow>, app: AppConfig)
    requires
        types::matching(windows, app).len() == 0,
    ensures
        forall|j: int|
            0 <= j < windows.len() ==> !types::window_matches(#[trigger] windows[j], app),
    decreases windows.len(),
{
    reveal(Seq::filter);
    if windows.len() > 0 {
        let before = windows.drop_last();
        lemma_none_match(before, app);
        assert forall|j: int| 0 <= j < windows.len() implies !types::window_matches(
            #[trigger] windows[j],
            app,
        ) by {
            if j < before.len() {
                assert(before[j] == windows[j]);
            }
        }
    }
}

} // verus!
