use galahad_encoder::process_enum::{
    discord_processes, is_discord, list_processes, ProcessInfo, ProcessRecord,
};

#[test]
fn detects_discord_variants() {
    assert!(is_discord("Discord.exe"));
    assert!(is_discord("DiscordCanary.exe"));
    assert!(is_discord("discordptb.exe"));
    assert!(!is_discord("cs2.exe"));
    assert!(!is_discord("chrome.exe"));
}

#[test]
fn discord_is_found_in_any_letter_case() {
    assert!(is_discord("DISCORD.EXE"));
    assert!(!is_discord("MyDiscord.exe"));
    let running = vec![
        ProcessInfo { pid: 4, name: "cs2.exe".into() },
        ProcessInfo { pid: 5, name: "DiscordPTB.exe".into() },
    ];
    let found = discord_processes(&running);
    assert_eq!(found.len(), 1);
    assert_eq!((found[0].pid, found[0].name.as_str()), (5, "DiscordPTB.exe"));
}

#[test]
fn processes_are_named_by_their_executable() {
    let record = |pid: u32, path: Option<&str>| ProcessRecord { pid, path: path.map(str::to_string) };
    let listed: Vec<(u32, String)> = list_processes(&vec![
        record(0, Some("idle")),
        record(7, Some("C:\\Program Files\\x/Discord.exe")),
        record(8, None),
        record(9, Some("plain.exe")),
        record(10, Some("dir\\")),
    ])
    .into_iter()
    .map(|p| (p.pid, p.name))
    .collect();
    assert_eq!(
        listed,
        vec![
            (7, "Discord.exe".to_string()),
            (9, "plain.exe".to_string()),
            (10, String::new())
        ]
    );
}
