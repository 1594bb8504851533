//! What the application says of itself.

use vstd::prelude::*;

verus! {

/// The name by which the desktop knows the application.
pub const APP_ID: &'static str = "com.github.digit1024.ms-todo-app";

/// What is said while operations are running.
pub const SYNC_NOTICE: &'static str = "Syncing with Microsoft Todo...";

/// What the application says of itself. A label is a key of a text in the language of the user.
#[derive(Debug)]
pub struct About {
    /// The label of its name.
    pub name: &'static str,
    pub version: &'static str,
    pub author: &'static str,
    pub license: &'static str,
    pub comments: &'static str,
    /// Labels and addresses of pages of the web.
    pub links: Vec<(&'static str, &'static str)>,
    /// Names and addresses of people.
    pub developers: Vec<(&'static str, &'static str)>,
}

/// The pages of the web about the application.
pub open spec fn about_links() -> Seq<(&'static str, &'static str)> {
    seq![
        ("repository-original", "https://github.com/cosmic-utils/tasks"),
        ("repository-microsoft-todo", "https://github.com/digit1024/msToDO"),
        ("support-original", "https://github.com/cosmic-utils/tasks/issues"),
        ("support", "https://github.com/digit1024/msToDO/issues"),
        ("website-original", "https://tasks.edfloreshz.dev"),
        ("website-microsoft-todo", "https://github.com/digit1024/msToDO"),
    ]
}

impl About {
    pub fn new() -> (about: About)
        ensures
            about.name == "tasks",
            about.version == "1.0.0",
            about.author == "Eduardo Flores (original) and Mchał Banaś (microsoft TODO)",
            about.license == "GPL-3.0-only",
            about.comments
                == "I want to thank the original author of 'tasks'. Without his work, this app would not be possible.",
            about.links@ == about_links(),
            about.developers@ == seq![
                ("Eduardo Flores", "edfloreshz@proton.me"),
                ("Michał Banaś", "https://github.com/digit1024"),
            ],
    {
        let mut links: Vec<(&'static str, &'static str)> = Vec::new();
        links.push(("repository-original", "https://github.com/cosmic-utils/tasks"));
        links.push(("repository-microsoft-todo", "https://github.com/digit1024/msToDO"));
        links.push(("support-original", "https://github.com/cosmic-utils/tasks/issues"));
        links.push(("support", "https://github.com/digit1024/msToDO/issues"));
        links.push(("website-original", "https://tasks.edfloreshz.dev"));
        links.push(("website-microsoft-todo", "https://github.com/digit1024/msToDO"));
        let mut developers: Vec<(&'static str, &'static str)> = Vec::new();
        developers.push(("Eduardo Flores", "edfloreshz@proton.me"));
        developers.push(("Michał Banaś", "https://github.com/digit1024"));
        About {
            name: "tasks",
            version: "1.0.0",
            author: "Eduardo Flores (original) and Mchał Banaś (microsoft TODO)",
            license: "GPL-3.0-only",
            comments: "I want to thank the original author of 'tasks'. Without his work, this app would not be possible.",
            links,
            developers,
        }
    }
}

} // verus!
