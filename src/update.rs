use vstd::prelude::*;

use crate::text::append;

verus! {

/// What asking for an update came back with.
#[derive(Debug)]
pub enum UpdateCheck {
    /// The updater could not be set up.
    UpdaterUnavailable(String),
    /// The check itself failed.
    CheckFailed(String),
    UpToDate,
    Available { current_version: String, latest_version: String },
}

/// What the host shows or does after a check.
#[derive(Debug)]
pub enum UpdateStep {
    /// Nothing to show.
    Quiet,
    /// Report the failure to the log, not to the user.
    LogFailure(String),
    /// Tell the user that this is the latest version.
    ShowUpToDate,
    /// Offer to install, with this message.
    OfferInstall(String),
}

pub open spec fn offer_message(current: Seq<char>, latest: Seq<char>) -> Seq<char> {
    "Your Version: "@ + current + "\nLatest Version: "@ + latest
}

/// Decides what follows a check for updates. Only an available update or,
/// unless asked to stay silent, the news that there is none reach the user.
pub fn after_check(check: UpdateCheck, silent_if_none: bool) -> (r: UpdateStep)
    ensures
        check matches UpdateCheck::UpdaterUnavailable(e) ==> r matches UpdateStep::LogFailure(m)
            && m@ == e@,
        check matches UpdateCheck::CheckFailed(e) ==> r matches UpdateStep::LogFailure(m) && m@
            == e@,
        check is UpToDate && silent_if_none ==> r is Quiet,
        check is UpToDate && !silent_if_none ==> r is ShowUpToDate,
        check matches UpdateCheck::Available { current_version, latest_version } ==> r matches
            UpdateStep::OfferInstall(m) && m@ == offer_message(current_version@, latest_version@),
{
    match check {
        UpdateCheck::UpdaterUnavailable(e) => UpdateStep::LogFailure(e),
        UpdateCheck::CheckFailed(e) => UpdateStep::LogFailure(e),
        UpdateCheck::UpToDate => {
            if silent_if_none {
                UpdateStep::Quiet
            } else {
                UpdateStep::ShowUpToDate
            }
        },
        UpdateCheck::Available { current_version, latest_version } => {
            let mut m = "Your Version: ".to_owned();
            append(&mut m, current_version.as_str());
            append(&mut m, "\nLatest Version: ");
            append(&mut m, latest_version.as_str());
            UpdateStep::OfferInstall(m)
        },
    }
}

} // verus!
