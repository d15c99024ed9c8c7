use nits_client_core::command::{
    command_named, commands, config_name, contexts, label, modes_of, name_of, Command, Context,
    Mode,
};
use nits_client_core::keymap::{
    resolve_seq, ActionKeys, Binding, GroupLabel, Hint, KeyChord, KeyParseError, KeySeq,
    KeysConfig, KeysError, Keymap, Lookup, ModeKeys, NamedKey, Override, Overrides,
};

fn keys(text: &str) -> KeySeq {
    KeySeq::parse(text).unwrap()
}

fn text_of(chords: &[KeyChord]) -> String {
    chords.iter().map(|c| c.to_string()).collect::<Vec<String>>().join(" ")
}

#[test]
fn chords_and_sequences_round_trip_through_text() {
    for text in ["ctrl+p", "g g", "] c", "shift+enter", "?", "space", "meta+p", "ctrl++"] {
        let seq = KeySeq::parse(text).unwrap();
        assert_eq!(seq.to_string(), text, "{text}");
    }
    assert_eq!(KeySeq::parse(""), Err(KeyParseError::Empty));
    assert!(matches!(KeySeq::parse("hyper+x"), Err(KeyParseError::UnknownModifier(_))));
    assert!(matches!(KeySeq::parse("banana"), Err(KeyParseError::UnknownKey(_))));
    assert_eq!(keys("] f").to_string(), "] f");
}

#[test]
fn every_named_key_reads_back_with_every_modifier() {
    let names = [
        NamedKey::Enter,
        NamedKey::Esc,
        NamedKey::Tab,
        NamedKey::Backspace,
        NamedKey::Space,
        NamedKey::Up,
        NamedKey::Down,
        NamedKey::Left,
        NamedKey::Right,
        NamedKey::PageUp,
        NamedKey::PageDown,
        NamedKey::Home,
        NamedKey::End,
    ];
    for key in names {
        let plain = KeyChord::named(key);
        for chord in [plain, plain.ctrl(), plain.shift(), plain.meta(), plain.ctrl().shift().meta()] {
            assert_eq!(KeyChord::parse(chord.to_string().as_str()), Ok(chord));
        }
    }
    let pair = KeySeq::pair(KeyChord::char('+').ctrl(), KeyChord::char('λ'));
    assert_eq!(pair.to_string(), "ctrl++ λ");
    assert_eq!(KeySeq::parse("  ctrl++\u{3000}λ\n"), Ok(pair));
    // The blank as a character is written like the key.
    assert_eq!(KeyChord::parse(KeyChord::char(' ').to_string().as_str()), Ok(KeyChord::named(NamedKey::Space)));
    assert_eq!(KeyChord::parse("Control+CMD+PageUp"), Ok(KeyChord::named(NamedKey::PageUp).ctrl().meta()));
    assert_eq!(KeyChord::parse(""), Err(KeyParseError::Empty));
    assert_eq!(KeyChord::parse("+x"), Err(KeyParseError::UnknownModifier(String::new())));
    // Nothing behind the last plus: the plus is the key.
    assert_eq!(KeyChord::parse("ctrl+"), Ok(KeyChord::char('+')));
    assert_eq!(KeyChord::parse("ctrl+Banana"), Err(KeyParseError::UnknownKey("Banana".to_string())));
    assert_eq!(KeySeq::new(Vec::new()), Err(KeyParseError::Empty));
}

#[test]
fn default_table_parses_and_has_no_conflicts() {
    let map = Keymap::default_table();
    for b in map.bindings() {
        assert_ne!(
            b.keys.chords()[0],
            KeyChord::char('\0'),
            "unparsable literal for {:?}",
            b.command
        );
    }
    assert_eq!(map.conflicts(), Vec::new());
}

#[test]
fn lookup_shadows_global_and_reports_prefixes() {
    let map = Keymap::default_table();
    let g = KeyChord::char('g');
    assert_eq!(map.lookup(Context::Diff, &[g]), Lookup::Prefix);
    assert_eq!(map.lookup(Context::Diff, &[g, g]), Lookup::Command(Command::GoTop));
    assert_eq!(
        map.lookup(Context::Diff, &[KeyChord::char('?')]),
        Lookup::Command(Command::ToggleHelp)
    );
    // `z` opens the expand group in the diff; an unbound key finds nothing.
    assert_eq!(map.lookup(Context::Diff, &[KeyChord::char('z')]), Lookup::Prefix);
    assert_eq!(map.lookup(Context::Diff, &[KeyChord::char('q')]), Lookup::Unbound);
    // `c` comments in Diff and on the focused file in Tree.
    assert_eq!(
        map.lookup(Context::Diff, &[KeyChord::char('c')]),
        Lookup::Command(Command::Comment)
    );
    assert_eq!(
        map.lookup(Context::Tree, &[KeyChord::char('c')]),
        Lookup::Command(Command::Comment)
    );
}

#[test]
fn overrides_replace_unbind_and_surface_conflicts() {
    let overrides = Overrides {
        bindings: vec![
            Override {
                context: Context::Diff,
                command: Command::Comment,
                keys: Some(keys("u")),
                primary: true,
            },
            Override {
                context: Context::Diff,
                command: Command::NextHunk,
                keys: None,
                primary: false,
            },
            Override {
                context: Context::Diff,
                command: Command::PrevHunk,
                keys: Some(keys("j")),
                primary: false,
            },
        ],
    };
    let map = Keymap::with_overrides(&overrides);
    assert_eq!(
        map.lookup(Context::Diff, &[KeyChord::char('u')]),
        Lookup::Command(Command::Comment)
    );
    assert_eq!(map.lookup(Context::Diff, &[KeyChord::char('c')]), Lookup::Unbound);
    assert_eq!(map.lookup(Context::Diff, &[KeyChord::char('n')]), Lookup::Unbound);
    assert!(map.is_overridden(Context::Diff, Command::Comment));
    let conflicts = map.conflicts();
    assert_eq!(conflicts.len(), 1);
    assert_eq!(conflicts[0].keys.to_string(), "j");
    assert_eq!(conflicts[0].commands, vec![Command::MoveDown, Command::PrevHunk]);
}

#[test]
fn help_is_non_empty_in_every_context_and_hints_are_primary_only() {
    let map = Keymap::default_table();
    for ctx in contexts() {
        let help = map.help(ctx);
        assert!(!help.groups[0].entries.is_empty(), "{:?}", ctx);
        let hints = map.hints(ctx);
        assert!(!hints.is_empty(), "{:?}", ctx);
        assert!(hints.iter().all(|h| !h.label.is_empty()));
        assert_eq!(hints.last().unwrap().command, Command::ToggleHelp);
    }
}

#[test]
fn help_and_every_pending_prefix_are_exhaustively_derived_from_bindings() {
    let map = Keymap::default_table();
    for context in contexts() {
        let help = map.help(context);
        let expected = if context == Context::Global {
            vec![Context::Global]
        } else {
            vec![context, Context::Global]
        };
        assert_eq!(
            help.groups.iter().map(|g| g.context).collect::<Vec<Context>>(),
            expected,
            "help groups for {:?}",
            context
        );
        for group in &help.groups {
            let bindings = map
                .bindings()
                .iter()
                .filter(|binding| binding.context == group.context)
                .collect::<Vec<&Binding>>();
            assert_eq!(group.entries.len(), bindings.len(), "help for {:?}", context);
            for (entry, binding) in group.entries.iter().zip(bindings) {
                assert_eq!(entry.keys, binding.keys.to_string());
                assert_eq!(entry.command, binding.command);
                assert_eq!(entry.label, label(binding.command));
                assert_eq!(entry.primary, binding.primary);
                assert_eq!(
                    entry.overridden,
                    map.is_overridden(binding.context, binding.command)
                );
            }
        }

        let applicable = map.applicable(context);
        let mut prefixes = applicable
            .iter()
            .flat_map(|binding| {
                (1..binding.keys.chords().len())
                    .map(|len| binding.keys.chords()[..len].to_vec())
                    .collect::<Vec<Vec<KeyChord>>>()
            })
            .collect::<Vec<Vec<KeyChord>>>();
        prefixes.sort_by_key(|prefix| text_of(prefix));
        prefixes.dedup();
        for prefix in prefixes {
            let expected = applicable
                .iter()
                .filter(|binding| {
                    binding.keys.chords().len() > prefix.len() && binding.keys.starts_with(&prefix)
                })
                .map(|binding| Hint {
                    keys: text_of(&binding.keys.chords()[prefix.len()..]),
                    command: binding.command,
                    label: label(binding.command).to_owned(),
                })
                .collect::<Vec<Hint>>();
            assert_eq!(
                map.pending_hints(context, &prefix),
                expected,
                "pending hints for {:?} after {}",
                context,
                text_of(&prefix)
            );
        }
    }
}

#[test]
fn overridden_conflicting_continuations_remain_discoverable() {
    let map = Keymap::with_overrides(&Overrides {
        bindings: vec![
            Override {
                context: Context::Diff,
                command: Command::ExpandUp,
                keys: Some(keys("z x")),
                primary: false,
            },
            Override {
                context: Context::Diff,
                command: Command::ExpandDown,
                keys: Some(keys("z x")),
                primary: false,
            },
        ],
    });
    let pending = map.pending_hints(Context::Diff, &[KeyChord::char('z')]);
    assert!(pending.iter().any(|hint| hint.keys == "x" && hint.command == Command::ExpandUp));
    assert!(pending.iter().any(|hint| hint.keys == "x" && hint.command == Command::ExpandDown));

    let help = map.help(Context::Diff);
    let diff = help.groups.iter().find(|group| group.context == Context::Diff).unwrap();
    for command in [Command::ExpandUp, Command::ExpandDown] {
        let entry = diff.entries.iter().find(|entry| entry.command == command).unwrap();
        assert_eq!(entry.keys, "z x");
        assert!(entry.overridden);
    }
    assert!(help.conflicts.iter().any(|conflict| {
        conflict.context == Context::Diff
            && conflict.keys.to_string() == "z x"
            && conflict.commands.contains(&Command::ExpandUp)
            && conflict.commands.contains(&Command::ExpandDown)
    }));
}

fn config(mode: Mode, action: &str, seqs: &[&str]) -> KeysConfig {
    KeysConfig {
        leader: None,
        bindings: vec![ModeKeys {
            mode,
            actions: vec![ActionKeys {
                action: action.to_string(),
                keys: seqs.iter().map(|s| s.to_string()).collect(),
            }],
        }],
        groups: Vec::new(),
    }
}

#[test]
fn configured_keys_replace_the_defaults_of_their_mode() {
    let map = Keymap::with_config(&config(Mode::Normal, "next_hunk", &["<leader> n", "ctrl+n"])).unwrap();
    let space = KeyChord::named(NamedKey::Space);
    assert_eq!(map.leader(), space);
    assert_eq!(
        map.lookup(Context::Diff, &[space, KeyChord::char('n')]),
        Lookup::Command(Command::NextHunk)
    );
    assert_eq!(
        map.lookup(Context::Diff, &[KeyChord::char('n').ctrl()]),
        Lookup::Command(Command::NextHunk)
    );
    assert!(map.is_overridden(Context::Diff, Command::NextHunk));
    assert!(map
        .bindings()
        .iter()
        .filter(|b| b.command == Command::NextHunk)
        .all(|b| b.keys == keys("space n") || b.keys == keys("ctrl+n")));
    // No sequences: unbound.
    let map = Keymap::with_config(&config(Mode::Normal, "NextHunk", &[])).unwrap();
    assert!(map.bindings().iter().all(|b| b.command != Command::NextHunk));
}

#[test]
fn a_configured_leader_and_group_take_effect() {
    let map = Keymap::with_config(&KeysConfig {
        leader: Some(",".to_string()),
        bindings: Vec::new(),
        groups: vec![GroupLabel { prefix: "<leader> x".to_string(), label: "Extra".to_string() }],
    })
    .unwrap();
    let comma = KeyChord::char(',');
    assert_eq!(map.leader(), comma);
    assert_eq!(map.lookup(Context::Diff, &[comma]), Lookup::Prefix);
    assert_eq!(map.pending_label(&[comma]), Some("Leader".to_string()));
    assert_eq!(map.pending_label(&[comma, KeyChord::char('x')]), Some("Extra".to_string()));
    assert_eq!(map.pending_label(&[KeyChord::char('x')]), None);
}

#[test]
fn every_error_of_a_configuration_is_named() {
    let refused = |c: KeysConfig| Keymap::with_config(&c).unwrap_err();
    assert_eq!(
        refused(config(Mode::Normal, "no_such", &["x"])),
        KeysError::UnknownAction("no_such".to_string())
    );
    assert_eq!(
        refused(config(Mode::Normal, "next_hunk", &["hyper+x"])),
        KeysError::BadKeys {
            action: "next_hunk".to_string(),
            source: KeyParseError::UnknownModifier("hyper".to_string()),
        }
    );
    assert_eq!(
        refused(config(Mode::Insert, "move_down", &["x"])),
        KeysError::WrongMode {
            action: "move_down".to_string(),
            mode: Mode::Insert,
            valid: "Normal, Visual".to_string(),
        }
    );
    let none = || KeysConfig { leader: None, bindings: Vec::new(), groups: Vec::new() };
    assert_eq!(
        refused(KeysConfig { leader: Some("banana".to_string()), ..none() }),
        KeysError::BadLeader(KeyParseError::UnknownKey("banana".to_string()))
    );
    assert_eq!(
        refused(KeysConfig { leader: Some("g g".to_string()), ..none() }),
        KeysError::BadLeader(KeyParseError::Empty)
    );
    let bad = GroupLabel { prefix: String::new(), label: "Nothing".to_string() };
    assert_eq!(
        refused(KeysConfig { groups: vec![bad], ..none() }),
        KeysError::BadGroup { prefix: String::new(), source: KeyParseError::Empty }
    );
}

#[test]
fn leaders_stand_in_for_their_token() {
    let leader = KeyChord::char(',');
    assert_eq!(
        resolve_seq("<Leader> f", leader),
        Ok(KeySeq::pair(leader, KeyChord::char('f')))
    );
    assert_eq!(resolve_seq("   ", leader), Err(KeyParseError::Empty));
}

#[test]
fn every_command_is_found_under_its_names() {
    let all = commands();
    assert_eq!(all.len(), 71);
    for command in &all {
        assert_eq!(command_named(config_name(*command).as_str()), Some(*command));
        assert_eq!(command_named(name_of(*command)), Some(*command));
        assert_eq!(command_named(name_of(*command).to_uppercase().as_str()), Some(*command));
        assert!(!label(*command).is_empty());
        assert!(!modes_of(*command).is_empty());
    }
    assert_eq!(config_name(Command::ToggleLayout), "toggle_layout");
    assert_eq!(command_named("toggle-layout"), Some(Command::ToggleLayout));
    // The Kelvin sign folds to `k`.
    assert_eq!(command_named("bac\u{212a}"), Some(Command::Back));
    assert_eq!(command_named("toggle"), None);
    assert_eq!(modes_of(Command::Submit), vec![Mode::Insert]);
}

#[test]
fn pending_groups_are_named() {
    let map = Keymap::default_table();
    assert_eq!(map.pending_label(&[KeyChord::char('g')]), Some("Go".to_string()));
    assert_eq!(map.pending_label(&[KeyChord::char('z')]), Some("Expand/scroll".to_string()));
    assert_eq!(map.pending_label(&[KeyChord::named(NamedKey::Space)]), Some("Leader".to_string()));
}

#[test]
fn bindings_of_the_context_come_before_the_global_ones() {
    let map = Keymap::default_table();
    for context in contexts() {
        let of = |wanted: Context| {
            map.bindings()
                .iter()
                .filter(|b| b.context == wanted)
                .map(|b| (b.keys.to_string(), b.command))
                .collect::<Vec<(String, Command)>>()
        };
        let mut expected = of(context);
        if context != Context::Global {
            expected.extend(of(Context::Global));
        }
        let shown: Vec<(String, Command)> =
            map.applicable_bindings(context).iter().map(|h| (h.keys.clone(), h.command)).collect();
        assert_eq!(shown, expected, "{:?}", context);
    }
    // A pending `g` offers what the diff has behind it first.
    let pending = map.pending_hints(Context::Diff, &[KeyChord::char('g')]);
    assert_eq!(pending[0].command, Command::GoTop);
}

#[test]
fn hints_end_in_help_and_put_the_context_first() {
    let map = Keymap::default_table();
    for context in contexts() {
        let hints = map.hints(context);
        assert_eq!(hints.last().unwrap().command, Command::ToggleHelp);
        assert!(hints.iter().all(|h| !h.label.is_empty()));
        let own = |c: Command| {
            map.bindings().iter().any(|b| b.primary && b.context == context && b.command == c)
        };
        let ranks: Vec<u8> = hints
            .iter()
            .map(|h| match h.command {
                Command::ToggleHelp => 2,
                c if own(c) => 0,
                _ => 1,
            })
            .collect();
        assert!(ranks.windows(2).all(|w| w[0] <= w[1]), "{:?}", context);
    }
}

#[test]
fn chrome_shows_each_command_once_with_its_global_keys() {
    let chrome = Keymap::default_table().chrome();
    for command in commands() {
        assert_eq!(chrome.iter().filter(|h| h.command == command).count(), 1, "{:?}", command);
    }
    let keys_of = |c: Command| chrome.iter().find(|h| h.command == c).unwrap().keys.clone();
    assert_eq!(keys_of(Command::NextFile), "g f");
    assert_eq!(keys_of(Command::ToggleHelp), "?");
    let unbound = Override {
        context: Context::Composer,
        command: Command::Submit,
        keys: None,
        primary: false,
    };
    let map = Keymap::with_overrides(&Overrides { bindings: vec![unbound] });
    let bound = map.bindings().iter().any(|b| b.command == Command::Submit);
    assert_eq!(map.chrome().iter().any(|h| h.command == Command::Submit), bound);
}

fn overriding(context: Context, command: Command, text: Option<&str>) -> Override {
    Override { context, command, keys: text.map(keys), primary: true }
}

#[test]
fn the_last_override_of_a_command_decides() {
    let rows = |map: &Keymap, command: Command| {
        map.bindings()
            .iter()
            .filter(|b| b.context == Context::Diff && b.command == command)
            .map(|b| b.keys.to_string())
            .collect::<Vec<String>>()
    };
    let map = Keymap::with_overrides(&Overrides {
        bindings: vec![
            overriding(Context::Diff, Command::NextHunk, Some("q")),
            overriding(Context::Diff, Command::PrevHunk, None),
            overriding(Context::Diff, Command::NextHunk, Some("Q")),
        ],
    });
    assert_eq!(rows(&map, Command::NextHunk), vec!["Q".to_string()]);
    assert_eq!(rows(&map, Command::PrevHunk), Vec::<String>::new());
    assert!(map.is_overridden(Context::Diff, Command::NextHunk));
    assert!(map.is_overridden(Context::Diff, Command::PrevHunk));
    assert!(!map.is_overridden(Context::Tree, Command::NextHunk));
    let named = |b: &&Binding| {
        b.context == Context::Diff && matches!(b.command, Command::NextHunk | Command::PrevHunk)
    };
    let default = Keymap::default_table();
    let before: Vec<&Binding> = default.bindings().iter().filter(|b| !named(b)).collect();
    let after: Vec<&Binding> = map.bindings().iter().filter(|b| !named(b)).collect();
    assert_eq!(before, after);
}

#[test]
fn conflicts_gather_the_commands_of_one_sequence() {
    assert!(Keymap::default_table().conflicts().is_empty());
    let map = Keymap::with_overrides(&Overrides {
        bindings: vec![
            overriding(Context::Diff, Command::NextHunk, Some("Q")),
            overriding(Context::Diff, Command::PrevHunk, Some("Q")),
            overriding(Context::Diff, Command::ExpandUp, Some("Q x")),
            overriding(Context::Tree, Command::NextFile, Some("Q")),
        ],
    });
    let conflicts = map.conflicts();
    assert_eq!(conflicts.len(), 1);
    assert_eq!(conflicts[0].context, Context::Diff);
    assert_eq!(conflicts[0].keys, keys("Q"));
    assert_eq!(
        conflicts[0].commands,
        vec![Command::NextHunk, Command::PrevHunk, Command::ExpandUp]
    );
}

#[test]
fn labels_tell_commands_apart() {
    let all = commands();
    for a in &all {
        for b in &all {
            assert_eq!(label(*a) == label(*b), a == b, "{:?} and {:?}", a, b);
        }
    }
}
