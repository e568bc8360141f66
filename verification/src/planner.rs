//! The planner's prompts: the team it may assign steps to, the system
//! message and the request for a plan. The model call is made by the caller.

use vstd::prelude::*;
use crate::text::{join, join_spec, views};

verus! {

/// Opening of the planner's system message, before the team.
pub const PLANNER_SYSTEM_INTRO: &'static str = r#"
You are a helpful AI assistant named Magentic-UI. Your goal is to help the user with their request.
You are a planner, and your task is to devise a plan to address the user's request.

You have access to the following team members that can help you:
"#;

/// End of the planner's system message, after the team.
pub const PLANNER_SYSTEM_END: &'static str = r#"

Your plan should be a sequence of steps. You must output a JSON object, and nothing else.
"#;

/// Opening of the plan request, before the task.
pub const PLAN_REQUEST_INTRO: &'static str = r#"
Please create a plan for the task: ""#;

/// Part of the plan request between the task and the team.
pub const PLAN_REQUEST_MIDDLE: &'static str = r#""

Your response must be a single JSON object that adheres to the following schema. Do not add any text before or after the JSON object.

Team available:
"#;

/// End of the plan request, with the answer's schema.
pub const PLAN_REQUEST_END: &'static str = r#"

JSON Schema:
{
    "response": "a complete response to the user request if no plan is needed.",
    "task": "a complete description of the task requested by the user",
    "plan_summary": "a complete summary of the plan if a plan is needed, otherwise an empty string",
    "needs_plan": true,
    "steps": [
        {
            "title": "title of step 1",
            "details": "details of step 1",
            "agent_name": "the name of the agent that should complete the step"
        },
        {
            "title": "title of step 2",
            "details": "details of step 2",
            "agent_name": "the name of the agent that should complete the step"
        }
    ]
}
"#;

/// An agent the planner may assign steps to.
#[derive(Debug, Clone)]
pub struct Agent {
    pub name: String,
    pub description: String,
}

/// One line of the team description.
pub open spec fn agent_line(a: Agent) -> Seq<char> {
    a.name@ + ": "@ + a.description@
}

/// Makes plans for the team of `agents`.
#[derive(Debug)]
pub struct Planner {
    agents: Vec<Agent>,
}

impl Planner {
    /// The agents of the team.
    pub closed spec fn agents(&self) -> Seq<Agent> {
        self.agents@
    }

    /// A planner for `agents`.
    pub fn new(agents: Vec<Agent>) -> (p: Planner)
        ensures
            p.agents() == agents@,
    {
        Planner { agents }
    }

    /// One line per agent: its name and description.
    pub fn get_team_description(&self) -> (r: String)
        ensures
            r@ == join_spec(self.agents().map_values(|a: Agent| agent_line(a)), "\n"@),
    {
        let mut lines: Vec<String> = Vec::new();
        let mut i: usize = 0;
        while i < self.agents.len()
            invariant
                i <= self.agents@.len(),
                views(lines@) == self.agents@.take(i as int).map_values(|a: Agent| agent_line(a)),
            decreases self.agents@.len() - i,
        {
            let mut line = self.agents[i].name.clone();
            line.append(": ");
            line.append(self.agents[i].description.as_str());
            let ghost prev = lines@;
            let ghost lv = line@;
            lines.push(line);
            assert(views(lines@) =~= views(prev).push(lv));
            assert(self.agents@.take(i + 1).map_values(|a: Agent| agent_line(a)) =~= self.agents@.take(i as int).map_values(
                |a: Agent| agent_line(a),
            ).push(lv));
            i = i + 1;
        }
        assert(self.agents@.take(self.agents@.len() as int) =~= self.agents@);
        join(&lines, "\n")
    }

    /// The system message, with the team.
    pub fn build_system_prompt(&self, team_description: &str) -> (r: String)
        ensures
            r@ == PLANNER_SYSTEM_INTRO@ + team_description@ + PLANNER_SYSTEM_END@,
    {
        let mut r = String::from_str(PLANNER_SYSTEM_INTRO);
        r.append(team_description);
        r.append(PLANNER_SYSTEM_END);
        r
    }

    /// The request for a plan for `user_task`, with the team.
    pub fn build_user_prompt(&self, team_description: &str, user_task: &str) -> (r: String)
        ensures
            r@ == PLAN_REQUEST_INTRO@ + user_task@ + PLAN_REQUEST_MIDDLE@ + team_description@ + PLAN_REQUEST_END@,
    {
        let mut r = String::from_str(PLAN_REQUEST_INTRO);
        r.append(user_task);
        r.append(PLAN_REQUEST_MIDDLE);
        r.append(team_description);
        r.append(PLAN_REQUEST_END);
        r
    }
}

} // verus!
