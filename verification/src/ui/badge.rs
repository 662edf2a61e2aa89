//! The outcome of syncing one repository, with its badge, colour and text.
use vstd::prelude::*;
use crate::ui::theme::{Theme, green_code, cyan_code, blue_code, magenta_code, yellow_code, dim_code, red_code};

verus! {

#[derive(Debug, Clone, Copy, PartialEq, Eq, Structural)]
pub enum SyncStatus {
    UpToDate,
    Pushed,
    Pulled,
    Bidirectional,
    Committed,
    Conflict,
    Offline,
    Error,
    Skipped,
}

/// Statuses counted as a success in the summary.
pub open spec fn status_ok(s: SyncStatus) -> bool {
    matches!(s, SyncStatus::UpToDate | SyncStatus::Pushed | SyncStatus::Pulled | SyncStatus::Bidirectional | SyncStatus::Committed)
}

/// Statuses counted as a warning in the summary.
pub open spec fn status_warn(s: SyncStatus) -> bool {
    matches!(s, SyncStatus::Conflict | SyncStatus::Offline)
}

impl SyncStatus {
    pub open spec fn badge_spec(self) -> Seq<char> {
        match self {
                SyncStatus::UpToDate => "[ OK ]"@,
                SyncStatus::Pushed => "[ UP ]"@,
                SyncStatus::Pulled => "[ DOWN ]"@,
                SyncStatus::Bidirectional => "[ SYNC ]"@,
                SyncStatus::Committed => "[ SAVE ]"@,
                SyncStatus::Conflict => "[ CONF ]"@,
                SyncStatus::Offline => "[ OFF ]"@,
                SyncStatus::Error => "[ FAIL ]"@,
                SyncStatus::Skipped => "[ DRY ]"@,
            }
    }

    pub open spec fn color_spec(self, t: Theme) -> Seq<char> {
        match self {
                SyncStatus::UpToDate => green_code(t),
                SyncStatus::Pushed => cyan_code(t),
                SyncStatus::Pulled => blue_code(t),
                SyncStatus::Bidirectional => magenta_code(t),
                SyncStatus::Committed => yellow_code(t),
                SyncStatus::Conflict => yellow_code(t),
                SyncStatus::Offline => dim_code(t),
                SyncStatus::Error => red_code(t),
                SyncStatus::Skipped => dim_code(t),
            }
    }

    pub open spec fn description_spec(self) -> Seq<char> {
        match self {
                SyncStatus::UpToDate => "всё актуально"@,
                SyncStatus::Pushed => "отправлено на remote"@,
                SyncStatus::Pulled => "получено с remote"@,
                SyncStatus::Bidirectional => "двунаправленная синхронизация"@,
                SyncStatus::Committed => "локальный коммит"@,
                SyncStatus::Conflict => "конфликт, оставлена локальная версия"@,
                SyncStatus::Offline => "офлайн, remote-операции пропущены"@,
                SyncStatus::Error => "ошибка"@,
                SyncStatus::Skipped => "пропущено"@,
            }
    }

    pub fn badge(&self) -> (r: &'static str)
        ensures
            r@ == self.badge_spec(),
    {
        match self {
            SyncStatus::UpToDate => "[ OK ]",
            SyncStatus::Pushed => "[ UP ]",
            SyncStatus::Pulled => "[ DOWN ]",
            SyncStatus::Bidirectional => "[ SYNC ]",
            SyncStatus::Committed => "[ SAVE ]",
            SyncStatus::Conflict => "[ CONF ]",
            SyncStatus::Offline => "[ OFF ]",
            SyncStatus::Error => "[ FAIL ]",
            SyncStatus::Skipped => "[ DRY ]",
        }
    }

    pub fn color(&self, t: &Theme) -> (r: &'static str)
        ensures
            r@ == self.color_spec(*t),
    {
        match self {
            SyncStatus::UpToDate => t.green(),
            SyncStatus::Pushed => t.cyan(),
            SyncStatus::Pulled => t.blue(),
            SyncStatus::Bidirectional => t.magenta(),
            SyncStatus::Committed => t.yellow(),
            SyncStatus::Conflict => t.yellow(),
            SyncStatus::Offline => t.dim(),
            SyncStatus::Error => t.red(),
            SyncStatus::Skipped => t.dim(),
        }
    }

    pub fn description(&self) -> (r: &'static str)
        ensures
            r@ == self.description_spec(),
    {
        match self {
            SyncStatus::UpToDate => "всё актуально",
            SyncStatus::Pushed => "отправлено на remote",
            SyncStatus::Pulled => "получено с remote",
            SyncStatus::Bidirectional => "двунаправленная синхронизация",
            SyncStatus::Committed => "локальный коммит",
            SyncStatus::Conflict => "конфликт, оставлена локальная версия",
            SyncStatus::Offline => "офлайн, remote-операции пропущены",
            SyncStatus::Error => "ошибка",
            SyncStatus::Skipped => "пропущено",
        }
    }

    pub fn is_ok(&self) -> (r: bool)
        ensures
            r == status_ok(*self),
    {
        match self {
            SyncStatus::UpToDate | SyncStatus::Pushed | SyncStatus::Pulled | SyncStatus::Bidirectional
            | SyncStatus::Committed => true,
            _ => false,
        }
    }

    pub fn is_warn(&self) -> (r: bool)
        ensures
            r == status_warn(*self),
    {
        match self {
            SyncStatus::Conflict | SyncStatus::Offline => true,
            _ => false,
        }
    }
}

/// No status is both a success and a warning.
pub proof fn lemma_ok_and_warn_disjoint(s: SyncStatus)
    ensures
        !(status_ok(s) && status_warn(s)),
{
}

} // verus!
