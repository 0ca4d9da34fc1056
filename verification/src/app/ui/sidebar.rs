//! The list of tracked accounts.
use vstd::prelude::*;

use crate::app::notification_state::{
    counts_section, section_stats, unseen_in, updated_in, SectionKind, SectionStats,
};
use crate::app::state::AccountState;
use crate::app::ui::notifications::TextTone;
use crate::decimal::{decimal, decimal_text};
use vstd::string::StringExecFns;

verus! {

/// What is new in an account.
#[derive(Clone, Copy, Debug, PartialEq, Eq, Structural)]
pub struct AccountOverview {
    pub new_notifications: usize,
    pub unseen: usize,
    pub updated: usize,
}

/// Whether `overview` is what is new in an account.
pub open spec fn sums_up(overview: Option<AccountOverview>, account: AccountState) -> bool {
    match (overview, account.inbox) {
        (None, None) => true,
        (Some(o), Some(inbox)) => {
            &&& o.new_notifications == account.new_notification_ids@.len()
            &&& o.unseen == unseen_in(inbox.notifications@, SectionKind::Inbox)
            &&& o.updated == updated_in(inbox.notifications@, SectionKind::Inbox)
        },
        _ => false,
    }
}

/// What is new in an account, once it has been synced.
pub fn account_overview(account: &AccountState) -> (overview: Option<AccountOverview>)
    ensures
        sums_up(overview, *account),
{
    match &account.inbox {
        Some(inbox) => {
            let stats: SectionStats = section_stats(inbox);
            proof {
                assert(counts_section(
                    stats.of(SectionKind::Inbox),
                    inbox.notifications@,
                    SectionKind::Inbox,
                ));
            }
            Some(
                AccountOverview {
                    new_notifications: account.new_notification_ids.len(),
                    unseen: stats.inbox.unseen,
                    updated: stats.inbox.updated,
                },
            )
        },
        None => None,
    }
}

/// How the name of an account is drawn.
#[derive(Clone, Copy, Debug, PartialEq, Eq, Structural)]
pub struct HeadingStyle {
    pub strong: bool,
    pub tone: TextTone,
}

/// Whether `style` is how the name of an account is drawn.
pub open spec fn heading_of(
    is_selected: bool,
    overview: Option<AccountOverview>,
    style: HeadingStyle,
) -> bool {
    ({
        let has_new = overview is Some && overview->0.new_notifications > 0;
        style == (HeadingStyle {
            strong: is_selected || has_new,
            tone: if has_new && !is_selected {
                TextTone::Warning
            } else {
                TextTone::Plain
            },
        })
    })
}

/// How the name of an account is drawn: strong if it is selected or something is new, and
/// in a colour that stands out if something is new in an account that is not selected.
pub fn tracked_account_heading(is_selected: bool, overview: Option<AccountOverview>) -> (style:
    HeadingStyle)
    ensures
        heading_of(is_selected, overview, style),
{
    let has_new: bool = match overview {
        Some(overview) => overview.new_notifications > 0,
        None => false,
    };
    HeadingStyle {
        strong: is_selected || has_new,
        tone: if has_new && !is_selected {
            TextTone::Warning
        } else {
            TextTone::Plain
        },
    }
}

/// The colour of a badge.
#[derive(Clone, Copy, Debug, PartialEq, Eq, Structural)]
pub enum BadgeTone {
    Plain,
    Warning,
    /// It stands out and is strong.
    StrongWarning,
    Weak,
    Error,
}

/// A badge behind the name of an account.
#[derive(Clone, Debug, PartialEq, Eq)]
pub struct Badge {
    pub text: String,
    pub tone: BadgeTone,
}

/// The texts and colours of some badges.
pub open spec fn badge_views(badges: Seq<Badge>) -> Seq<(Seq<char>, BadgeTone)> {
    badges.map_values(|b: Badge| (b.text@, b.tone))
}

/// The badges on what is new in an account.
pub open spec fn overview_badges(overview: AccountOverview) -> Seq<(Seq<char>, BadgeTone)> {
    let new = if overview.new_notifications > 0 {
        seq![("new +"@ + decimal(overview.new_notifications as nat), BadgeTone::StrongWarning)]
    } else {
        Seq::empty()
    };
    let updated_tone = if overview.updated > 0 {
        BadgeTone::Warning
    } else {
        BadgeTone::Weak
    };
    new.push(("unseen "@ + decimal(overview.unseen as nat), BadgeTone::Plain)).push(
        ("updated "@ + decimal(overview.updated as nat), updated_tone),
    )
}

/// The badges of an account.
pub open spec fn account_badges(overview: Option<AccountOverview>, pending: bool, has_error: bool) -> Seq<
    (Seq<char>, BadgeTone),
> {
    let first = match overview {
        Some(o) => overview_badges(o),
        None => if pending {
            seq![("Loading…"@, BadgeTone::Weak)]
        } else {
            seq![("No data yet"@, BadgeTone::Weak)]
        },
    };
    let second = if pending {
        first.push(("syncing…"@, BadgeTone::Weak))
    } else {
        first
    };
    if has_error {
        second.push(("sync failed"@, BadgeTone::Error))
    } else {
        second
    }
}

fn push_badge(badges: &mut Vec<Badge>, text: String, tone: BadgeTone)
    ensures
        badge_views(final(badges)@) == badge_views(old(badges)@).push((text@, tone)),
{
    let ghost before = badges@;
    badges.push(Badge { text, tone });
    proof {
        assert(badge_views(badges@) =~= badge_views(before).push((text@, tone)));
    }
}

fn counted(lead: &str, n: usize) -> (text: String)
    ensures
        text@ == lead@ + decimal(n as nat),
{
    let mut text: String = lead.to_owned();
    text.append(decimal_text(n as u64).as_str());
    text
}

/// The badges of an account.
pub fn tracked_account_badges(
    overview: Option<AccountOverview>,
    pending: bool,
    has_error: bool,
) -> (badges: Vec<Badge>)
    ensures
        badge_views(badges@) == account_badges(overview, pending, has_error),
{
    let mut badges: Vec<Badge> = Vec::new();
    proof {
        assert(badge_views(badges@) =~= Seq::<(Seq<char>, BadgeTone)>::empty());
    }
    match overview {
        Some(overview) => {
            if overview.new_notifications > 0 {
                push_badge(
                    &mut badges,
                    counted("new +", overview.new_notifications),
                    BadgeTone::StrongWarning,
                );
                proof {
                    assert(badge_views(badges@) =~= seq![
                        (
                            "new +"@ + decimal(overview.new_notifications as nat),
                            BadgeTone::StrongWarning,
                        ),
                    ]);
                }
            }
            push_badge(&mut badges, counted("unseen ", overview.unseen), BadgeTone::Plain);
            let tone: BadgeTone = if overview.updated > 0 {
                BadgeTone::Warning
            } else {
                BadgeTone::Weak
            };
            push_badge(&mut badges, counted("updated ", overview.updated), tone);
        },
        None => {
            if pending {
                push_badge(&mut badges, "Loading…".to_owned(), BadgeTone::Weak);
                proof {
                    assert(badge_views(badges@) =~= seq![("Loading…"@, BadgeTone::Weak)]);
                }
            } else {
                push_badge(&mut badges, "No data yet".to_owned(), BadgeTone::Weak);
                proof {
                    assert(badge_views(badges@) =~= seq![("No data yet"@, BadgeTone::Weak)]);
                }
            }
        },
    }
    if pending {
        push_badge(&mut badges, "syncing…".to_owned(), BadgeTone::Weak);
    }
    if has_error {
        push_badge(&mut badges, "sync failed".to_owned(), BadgeTone::Error);
    }
    badges
}

} // verus!
