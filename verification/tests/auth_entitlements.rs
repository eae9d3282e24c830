use tradeassembly_runtime::auth::authz::{
    compute_grants, compute_limits, AccountPlan, ActivationPack, PlanLimits,
};

#[test]
fn entitlement_merge_preserves_source_shaped_limits_and_grants() {
    let plan = AccountPlan {
        id: "local".to_string(),
        limits: PlanLimits {
            max_active_activations: 2,
            evaluation_frequency_tier: "low".to_string(),
            journal_retention_days: 30,
        },
        grants: vec!["strategy.create".to_string()],
    };
    let packs = vec![
        ActivationPack {
            id: "research".to_string(),
            limits: PlanLimits {
                max_active_activations: 10,
                evaluation_frequency_tier: "medium".to_string(),
                journal_retention_days: 365,
            },
            grants: vec!["research.backtest.run".to_string()],
        },
        ActivationPack {
            id: "runtime".to_string(),
            limits: PlanLimits {
                max_active_activations: 5,
                evaluation_frequency_tier: "high".to_string(),
                journal_retention_days: 90,
            },
            grants: vec!["orders.submit".to_string()],
        },
    ];

    let limits = compute_limits(&plan, &packs);
    let grants = compute_grants(&plan, &packs);

    assert_eq!(limits.max_active_activations, 10);
    assert_eq!(limits.evaluation_frequency_tier, "high");
    assert_eq!(limits.journal_retention_days, 365);
    assert_eq!(
        grants,
        vec![
            "orders.submit".to_string(),
            "research.backtest.run".to_string(),
            "strategy.create".to_string()
        ]
    );
}
