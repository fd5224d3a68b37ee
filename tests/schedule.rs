use ferriby::schedule::{intervals_for, timer_plan, Event, IntervalSecs, PollSchedule};
use ferriby::sources::{GitHubSource, GitLabSource, GitSource, Source, SourceKind};

fn immediate_ticks(plan: &[ferriby::schedule::TimerSpec], window_ms: u64, kind: SourceKind) -> u64 {
    plan.iter()
        .filter(|t| t.event == Event::Tick(kind))
        .map(|t| (window_ms - 1) / t.period_ms + 1)
        .sum()
}

#[test]
fn intervals_follow_the_first_source_of_each_kind() {
    let sources = vec![
        Source::GitHub(GitHubSource { owner: "a".into(), repo: "b".into(), pat: None }),
        Source::GitHub(GitHubSource { owner: "c".into(), repo: "d".into(), pat: Some("t".into()) }),
        Source::Git(GitSource::default()),
        Source::GitLab(GitLabSource {
            hostname: "h".into(),
            project_id: "1".into(),
            project_name: "n".into(),
            pat: Some("t".into()),
        }),
    ];
    let c = intervals_for(&sources);
    assert_eq!(
        c,
        IntervalSecs { git: Some(3), github: Some(60), gitlab: Some(5), codeberg: None, forgejo: None }
    );
}

#[test]
fn plan_has_animation_and_one_timer_per_enabled_kind() {
    let c = IntervalSecs { git: Some(3), github: None, gitlab: Some(5), codeberg: None, forgejo: Some(60) };
    let plan = timer_plan(&c);
    assert_eq!(plan.len(), 4);
    assert_eq!(plan[0].event, Event::AnimationTick);
    assert_eq!(plan[0].period_ms, 700);
    assert_eq!(plan[1].event, Event::Tick(SourceKind::Git));
    assert_eq!(plan[1].period_ms, 3000);
    assert_eq!(plan[3].period_ms, 60000);
}

#[test]
fn two_restarts_give_one_immediate_tick_per_kind_each() {
    let c = IntervalSecs { git: Some(3), github: Some(5), gitlab: None, codeberg: None, forgejo: None };
    let sched = PollSchedule::new(c);
    let first = sched.restart();
    let second = sched.restart();
    assert_eq!(first, second);
    for kind in [SourceKind::Git, SourceKind::GitHub, SourceKind::GitLab, SourceKind::Codeberg, SourceKind::Forgejo] {
        let enabled = matches!(kind, SourceKind::Git | SourceKind::GitHub) as u64;
        assert_eq!(immediate_ticks(&first, 1000, kind), enabled);
        assert_eq!(immediate_ticks(&second, 1000, kind), enabled);
    }
}
