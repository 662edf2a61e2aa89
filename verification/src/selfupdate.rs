//! Updating the tool itself: the messages around the update, and its
//! refusal on Android.
use vstd::prelude::*;
use crate::text::{cat, owned};
use crate::ui::{Ui, shown};
use crate::ui::theme::{dim_code, green_code, reset_code, yellow_code};

verus! {

pub open spec fn android_lines(ui: Ui) -> Seq<Seq<char>> {
    let t = ui.theme;
    shown(ui, seq![" "@ + yellow_code(t) + "На Termux/Android автообновление отключено."@ + reset_code(t)])
        + shown(ui, seq![" "@ + dim_code(t) + "Скачай архив из GitHub Releases и замени бинарник вручную."@ + reset_code(t)])
}

fn line(color: &str, text: &str, reset: &str) -> (r: String)
    ensures
        r@ == " "@ + color@ + text@ + reset@,
{
    let mut r = owned(" ");
    r.append(color);
    r.append(text);
    r.append(reset);
    r
}

fn concat_lines(a: Vec<String>, b: Vec<String>) -> (r: Vec<String>)
    ensures
        crate::text::views(r@) == crate::text::views(a@) + crate::text::views(b@),
{
    let mut r = a;
    let mut i: usize = 0;
    let ghost a0 = crate::text::views(r@);
    while i < b.len()
        invariant
            i <= b@.len(),
            crate::text::views(r@) == a0 + crate::text::views(b@).take(i as int),
        decreases b.len() - i,
    {
        let ghost before = r@;
        let c = b[i].clone();
        r.push(c);
        assert(crate::text::views(r@) =~= crate::text::views(before).push(b@[i as int]@));
        assert(crate::text::views(b@).take(i + 1) =~= crate::text::views(b@).take(i as int).push(b@[i as int]@));
        i = i + 1;
    }
    assert(crate::text::views(b@).take(b@.len() as int) =~= crate::text::views(b@));
    r
}

/// Self-update on Android: two lines saying it is off and how to update by
/// hand, and the error that ends the command.
pub fn run(ui: &Ui) -> (r: (Vec<String>, Result<(), String>))
    ensures
        crate::text::views(r.0@) == android_lines(*ui),
        r.1 matches Err(e) && e@ == "self-update недоступен на android"@,
{
    let t = &ui.theme;
    let a = ui.out(line(t.yellow(), "На Termux/Android автообновление отключено.", t.reset()).as_str());
    let b = ui.out(line(t.dim(), "Скачай архив из GitHub Releases и замени бинарник вручную.", t.reset()).as_str());
    (concat_lines(a, b), Err(owned("self-update недоступен на android")))
}

/// The line showing the running version before an update.
pub fn current_version_line(ui: &Ui, current: &str) -> (r: Vec<String>)
    ensures
        crate::text::views(r@) == shown(*ui, seq![" "@ + dim_code(ui.theme) + "Текущая версия: "@ + current@ + reset_code(ui.theme)]),
{
    let t = &ui.theme;
    let mut l = owned(" ");
    l.append(t.dim());
    l.append("Текущая версия: ");
    l.append(current);
    l.append(t.reset());
    ui.out(l.as_str())
}

/// The line showing the version after an update.
pub fn updated_line(ui: &Ui, version: &str) -> (r: Vec<String>)
    ensures
        crate::text::views(r@) == shown(*ui, seq![" "@ + green_code(ui.theme) + "Версия после обновления: "@ + version@ + reset_code(ui.theme)]),
{
    let t = &ui.theme;
    let mut l = owned(" ");
    l.append(t.green());
    l.append("Версия после обновления: ");
    l.append(version);
    l.append(t.reset());
    ui.out(l.as_str())
}

/// The error when the updater cannot be configured.
pub fn build_error(e: &str) -> (r: String)
    ensures
        r@ == "self_update build: "@ + e@,
{
    cat("self_update build: ", e)
}

/// The error when the update itself fails.
pub fn update_error(e: &str) -> (r: String)
    ensures
        r@ == "self_update update: "@ + e@,
{
    cat("self_update update: ", e)
}

} // verus!
